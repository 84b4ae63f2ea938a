//! Command normalization: what counts as whitespace, what the trimmed form of
//! an input line is, and when a line is blank (and therefore never dispatched).

use vstd::prelude::*;
use vstd::string::StrSliceExecFns;

verus! {

/// A character of the Unicode `White_Space` category: the characters that are
/// stripped from the ends of an input line before dispatch.
pub open spec fn is_ws_char(c: char) -> bool {
    ||| c == '\u{0009}'
    ||| c == '\u{000A}'
    ||| c == '\u{000B}'
    ||| c == '\u{000C}'
    ||| c == '\u{000D}'
    ||| c == '\u{0020}'
    ||| c == '\u{0085}'
    ||| c == '\u{00A0}'
    ||| c == '\u{1680}'
    ||| c == '\u{2000}'
    ||| c == '\u{2001}'
    ||| c == '\u{2002}'
    ||| c == '\u{2003}'
    ||| c == '\u{2004}'
    ||| c == '\u{2005}'
    ||| c == '\u{2006}'
    ||| c == '\u{2007}'
    ||| c == '\u{2008}'
    ||| c == '\u{2009}'
    ||| c == '\u{200A}'
    ||| c == '\u{2028}'
    ||| c == '\u{2029}'
    ||| c == '\u{202F}'
    ||| c == '\u{205F}'
    ||| c == '\u{3000}'
}

/// A line is blank when every character in it is whitespace; the empty line is
/// blank. Blank lines are silently discarded by the session core.
pub open spec fn is_blank(s: Seq<char>) -> bool {
    forall|i: int| 0 <= i < s.len() ==> is_ws_char(#[trigger] s[i])
}

/// The trimmed form of a line: the line with every leading and trailing
/// whitespace character removed.
pub open spec fn trim_spec(s: Seq<char>) -> Seq<char>
    decreases s.len(),
{
    if s.len() == 0 {
        s
    } else if is_ws_char(s[0]) {
        trim_spec(s.subrange(1, s.len() as int))
    } else if is_ws_char(s[s.len() - 1]) {
        trim_spec(s.subrange(0, s.len() - 1))
    } else {
        s
    }
}

/// A command in the form the session core hands to a handler and records in
/// history: non-empty, with no whitespace at either end.
pub open spec fn is_normalized(s: Seq<char>) -> bool {
    &&& s.len() > 0
    &&& !is_ws_char(s[0])
    &&& !is_ws_char(s[s.len() - 1])
}

/// Decides whether `c` is a whitespace character, in the sense of
/// [`is_ws_char`].
pub fn is_ws(c: char) -> (r: bool)
    ensures
        r == is_ws_char(c),
{
    c == '\u{0009}' || c == '\u{000A}' || c == '\u{000B}' || c == '\u{000C}' || c == '\u{000D}'
        || c == '\u{0020}' || c == '\u{0085}' || c == '\u{00A0}' || c == '\u{1680}'
        || c == '\u{2000}' || c == '\u{2001}' || c == '\u{2002}' || c == '\u{2003}'
        || c == '\u{2004}' || c == '\u{2005}' || c == '\u{2006}' || c == '\u{2007}'
        || c == '\u{2008}' || c == '\u{2009}' || c == '\u{200A}' || c == '\u{2028}'
        || c == '\u{2029}' || c == '\u{202F}' || c == '\u{205F}' || c == '\u{3000}'
}

/// Dropping a trailing whitespace character does not change the trimmed form.
pub proof fn lemma_trim_drop_last(s: Seq<char>)
    requires
        s.len() > 0,
        is_ws_char(s[s.len() - 1]),
    ensures
        trim_spec(s) == trim_spec(s.drop_last()),
    decreases s.len(),
{
    if s.len() == 1 {
        assert(s.subrange(1, s.len() as int) =~= s.drop_last());
    } else if is_ws_char(s[0]) {
        let s1 = s.subrange(1, s.len() as int);
        assert(s1[s1.len() - 1] == s[s.len() - 1]);
        lemma_trim_drop_last(s1);
        assert(s1.drop_last() =~= s.drop_last().subrange(1, s.drop_last().len() as int));
        assert(s.drop_last()[0] == s[0]);
    } else {
        assert(s.subrange(0, s.len() - 1) =~= s.drop_last());
    }
}

/// A line trims to the empty command exactly when it is blank.
pub proof fn lemma_trim_blank(s: Seq<char>)
    ensures
        trim_spec(s).len() == 0 <==> is_blank(s),
    decreases s.len(),
{
    if s.len() == 0 {
    } else if is_ws_char(s[0]) {
        let s1 = s.subrange(1, s.len() as int);
        lemma_trim_blank(s1);
        if is_blank(s1) {
            assert forall|i: int| 0 <= i < s.len() implies is_ws_char(#[trigger] s[i]) by {
                if i > 0 {
                    assert(s[i] == s1[i - 1]);
                }
            }
        }
        if is_blank(s) {
            assert forall|i: int| 0 <= i < s1.len() implies is_ws_char(#[trigger] s1[i]) by {
                assert(s1[i] == s[i + 1]);
            }
        }
    } else if is_ws_char(s[s.len() - 1]) {
        let s2 = s.subrange(0, s.len() - 1);
        lemma_trim_blank(s2);
        assert(s2[0] == s[0]);
        assert(!is_blank(s2));
        assert(!is_blank(s));
    } else {
        assert(!is_blank(s));
    }
}

/// A non-empty trimmed form is a normalized command: it neither starts nor
/// ends with whitespace.
pub proof fn lemma_trim_normalized(s: Seq<char>)
    ensures
        trim_spec(s).len() > 0 ==> is_normalized(trim_spec(s)),
    decreases s.len(),
{
    if s.len() == 0 {
    } else if is_ws_char(s[0]) {
        lemma_trim_normalized(s.subrange(1, s.len() as int));
    } else if is_ws_char(s[s.len() - 1]) {
        lemma_trim_normalized(s.subrange(0, s.len() - 1));
    }
}

/// Strips leading and trailing whitespace from a line, returning the slice of
/// characters described by [`trim_spec`].
pub fn trim_str(s: &str) -> (r: &str)
    ensures
        r@ == trim_spec(s@),
{
    let n = s.unicode_len();
    proof {
        assert(s@.subrange(0, n as int) =~= s@);
    }
    let mut lo: usize = 0;
    while lo < n && is_ws(s.get_char(lo))
        invariant
            n == s@.len(),
            lo <= n,
            trim_spec(s@) == trim_spec(s@.subrange(lo as int, n as int)),
        decreases n - lo,
    {
        proof {
            let sub = s@.subrange(lo as int, n as int);
            assert(sub[0] == s@[lo as int]);
            assert(sub.subrange(1, sub.len() as int) =~= s@.subrange(lo as int + 1, n as int));
        }
        lo = lo + 1;
    }
    let mut hi: usize = n;
    while hi > lo && is_ws(s.get_char(hi - 1))
        invariant
            n == s@.len(),
            lo <= hi <= n,
            lo == n || !is_ws_char(s@[lo as int]),
            trim_spec(s@) == trim_spec(s@.subrange(lo as int, hi as int)),
        decreases hi,
    {
        proof {
            let sub = s@.subrange(lo as int, hi as int);
            assert(sub[sub.len() - 1] == s@[hi - 1]);
            lemma_trim_drop_last(sub);
            assert(sub.drop_last() =~= s@.subrange(lo as int, hi as int - 1));
        }
        hi = hi - 1;
    }
    proof {
        let sub = s@.subrange(lo as int, hi as int);
        if lo == hi {
            assert(sub =~= Seq::<char>::empty());
        } else {
            assert(sub[0] == s@[lo as int]);
            assert(sub[sub.len() - 1] == s@[hi - 1]);
        }
    }
    s.substring_char(lo, hi)
}

} // verus!

//! The session core: a verified state machine that turns the events a line
//! source produces (a line of text, an interrupt, end of input, a read
//! failure) into loop-control decisions, normalizing and recording each
//! accepted command before it is dispatched to the handler.
//!
//! The core owns the prompt and the handler. It does not own a terminal:
//! an embedding application reads lines (and persists history) through
//! whatever line-editing engine it chooses, feeds each result to
//! [`SessionCore::process`] as a [`ReadOutcome`], and acts on the returned
//! [`StepResult`].

use std::io::Write;

use vstd::prelude::*;

use crate::normalize::{
    is_blank, is_normalized, lemma_trim_blank, lemma_trim_normalized, trim_spec, trim_str,
};

verus! {

/// One result of asking the line source for a line: the four signals the
/// session distinguishes.
#[derive(Debug, PartialEq, Eq)]
pub enum ReadOutcome {
    /// The user produced a line of text (possibly blank).
    Line(String),
    /// The user cancelled the pending input (for example with Ctrl+C); the
    /// session survives this.
    Interrupt,
    /// The input stream is exhausted (for example Ctrl+D); the session ends
    /// cleanly.
    EndOfInput,
    /// The read failed for any other reason, described by the message; the
    /// session ends fatally.
    OtherError(String),
}

/// How a finished session ended.
#[derive(Debug, PartialEq, Eq)]
pub enum RunOutcome {
    /// The handler asked to stop, or the input stream ended.
    Success,
    /// A read failed; the message describes the underlying error.
    FatalError(String),
}

/// The lifecycle state of a session: awaiting input, or terminated with an
/// outcome. Both `Ended` states are terminal; [`SessionCore::process`] may
/// only be called while `Active`.
#[derive(Debug, PartialEq, Eq)]
pub enum SessionStatus {
    Active,
    Ended(RunOutcome),
}

/// What one processed event asks of the driving loop.
#[derive(Debug, PartialEq, Eq)]
pub enum StepResult {
    /// Nothing was dispatched (interrupt or blank line); read again.
    Pending,
    /// The carried command was recorded and dispatched, and the handler asked
    /// to continue; read again.
    Dispatched(String),
    /// The carried command was recorded and dispatched, and the handler asked
    /// to stop; the session has ended successfully and no further read may be
    /// attempted.
    Stopped(String),
    /// End of input; the session has ended successfully.
    Finished,
    /// A fatal read error; a diagnostic was emitted and the session has ended
    /// with [`RunOutcome::FatalError`].
    Failed,
}

/// Application logic plugged into a session: receives each normalized command
/// and decides whether the session continues.
///
/// The session core guarantees that `handle` is only ever invoked with a
/// normalized command: non-empty, with no leading or trailing whitespace.
pub trait CommandHandler {
    /// Handles one command.
    ///
    /// Returns `true` to continue the session, `false` to stop it.
    fn handle(&mut self, command: &str) -> bool
        requires
            is_normalized(command@),
    ;
}

/// The live session: a prompt, the handler it dispatches to, its lifecycle
/// state, and ghost journals of what it has recorded and dispatched.
pub struct SessionCore<H: CommandHandler> {
    /// Shown before each read; never changed by the session.
    pub prompt: String,
    /// The application logic; the session is its sole caller.
    pub handler: H,
    /// Whether the session is still running, and if not, how it ended.
    pub status: SessionStatus,
    /// The commands appended to history, oldest first.
    pub history: Ghost<Seq<Seq<char>>>,
    /// The commands forwarded to the handler, oldest first.
    pub dispatched: Ghost<Seq<Seq<char>>>,
}

impl<H: CommandHandler> SessionCore<H> {
    /// The session's running invariant: every command it has recorded or
    /// dispatched is normalized, and the history journal and the dispatch
    /// journal are the same sequence — each dispatched command was appended
    /// to history exactly once, in dispatch order.
    pub open spec fn consistent(self) -> bool {
        &&& self.history@ == self.dispatched@
        &&& forall|i: int|
            0 <= i < self.history@.len() ==> is_normalized(#[trigger] self.history@[i])
    }

    /// Creates a session that is awaiting its first input and has recorded
    /// and dispatched nothing.
    pub fn new(prompt: String, handler: H) -> (s: Self)
        ensures
            s.prompt == prompt,
            s.handler == handler,
            s.status == SessionStatus::Active,
            s.history@ == Seq::<Seq<char>>::empty(),
            s.dispatched@ == Seq::<Seq<char>>::empty(),
            s.consistent(),
    {
        Self {
            prompt,
            handler,
            status: SessionStatus::Active,
            history: Ghost(Seq::empty()),
            dispatched: Ghost(Seq::empty()),
        }
    }

    /// Processes one read event, performing the normalize–record–dispatch
    /// step of the session loop and deciding how the loop goes on:
    ///
    /// - an interrupt is absorbed: nothing changes, the caller reads again;
    /// - end of input ends the session successfully;
    /// - a read failure emits a diagnostic and ends the session fatally,
    ///   carrying the error message;
    /// - a blank line (empty or all whitespace) is silently discarded:
    ///   nothing is recorded, nothing is dispatched;
    /// - any other line is trimmed of surrounding whitespace, appended to the
    ///   history journal, and forwarded to the handler; the handler's answer
    ///   decides whether the session stays active or ends successfully.
    pub fn process(&mut self, event: ReadOutcome) -> (r: StepResult)
        requires
            old(self).status is Active,
        ensures
            final(self).prompt == old(self).prompt,
            old(self).consistent() ==> final(self).consistent(),
            event is Interrupt ==> r == StepResult::Pending && *final(self) == *old(self),
            event is EndOfInput ==> ({
                &&& r == StepResult::Finished
                &&& final(self).status == SessionStatus::Ended(RunOutcome::Success)
                &&& final(self).handler == old(self).handler
                &&& final(self).history == old(self).history
                &&& final(self).dispatched == old(self).dispatched
            }),
            event is OtherError ==> ({
                &&& r == StepResult::Failed
                &&& final(self).status == SessionStatus::Ended(
                    RunOutcome::FatalError(event->OtherError_0),
                )
                &&& final(self).handler == old(self).handler
                &&& final(self).history == old(self).history
                &&& final(self).dispatched == old(self).dispatched
            }),
            event is Line && is_blank(event->Line_0@) ==> r == StepResult::Pending && *final(self)
                == *old(self),
            event is Line && !is_blank(event->Line_0@) ==> ({
                let cmd = trim_spec(event->Line_0@);
                &&& is_normalized(cmd)
                &&& final(self).history@ == old(self).history@.push(cmd)
                &&& final(self).dispatched@ == old(self).dispatched@.push(cmd)
                &&& ({
                    ||| r matches StepResult::Dispatched(c) && c@ == cmd
                    ||| r matches StepResult::Stopped(c) && c@ == cmd
                })
                &&& (r is Dispatched <==> final(self).status is Active)
                &&& (r is Stopped <==> final(self).status == SessionStatus::Ended(
                    RunOutcome::Success,
                ))
            }),
    {
        match event {
            ReadOutcome::Interrupt => StepResult::Pending,
            ReadOutcome::EndOfInput => {
                self.status = SessionStatus::Ended(RunOutcome::Success);
                StepResult::Finished
            },
            ReadOutcome::OtherError(msg) => {
                report_fatal(msg.as_str());
                self.status = SessionStatus::Ended(RunOutcome::FatalError(msg));
                StepResult::Failed
            },
            ReadOutcome::Line(line) => {
                let cmd = trim_str(line.as_str());
                proof {
                    lemma_trim_blank(line@);
                }
                if cmd.is_empty() {
                    StepResult::Pending
                } else {
                    proof {
                        lemma_trim_normalized(line@);
                    }
                    let owned = cmd.to_owned();
                    self.history = Ghost(self.history@.push(owned@));
                    self.dispatched = Ghost(self.dispatched@.push(owned@));
                    if self.handler.handle(cmd) {
                        StepResult::Dispatched(owned)
                    } else {
                        self.status = SessionStatus::Ended(RunOutcome::Success);
                        StepResult::Stopped(owned)
                    }
                }
            },
        }
    }
}

/// Relies on `std::io::stderr` (with `writeln!`): writes one diagnostic line
/// describing a fatal read error to the error stream.
#[verifier::external_body]
fn report_fatal(msg: &str) {
    let _ = writeln!(std::io::stderr(), "Error: {}", msg);
}

} // verus!

//! Round-trip test for the history persistence the session delegates to its
//! line-editing collaborator: saving a history to a path and loading it into
//! a fresh history reproduces the same ordered sequence of commands.

use std::path::Path;

use rustyline::history::{FileHistory, History};

#[test]
fn history_round_trip_preserves_order() {
    let path_name = "/tmp/mycli_history_round_trip_test";
    let mut original = FileHistory::new();
    original.add("alpha").expect("add alpha");
    original.add("beta two  words").expect("add beta");
    original.add("gamma").expect("add gamma");
    original.save(Path::new(path_name)).expect("save history");

    let mut reloaded = FileHistory::new();
    reloaded.load(Path::new(path_name)).expect("load history");

    let before: Vec<String> = original.iter().cloned().collect();
    let after: Vec<String> = reloaded.iter().cloned().collect();
    assert_eq!(before, vec!["alpha", "beta two  words", "gamma"]);
    assert_eq!(before, after);
}

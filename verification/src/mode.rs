//! The three execution modes.

use vstd::prelude::*;

verus! {

/// How a statement is executed.
#[derive(Debug, Clone, Copy, PartialEq, Eq, Structural)]
pub enum Mode {
    /// Execute once and report how many rows were affected.
    Run,
    /// Fetch at most one row.
    Get,
    /// Fetch every row.
    All,
}

/// The mode that `text` names, if any: `run`, `get` or `all`, written
/// exactly so.
pub open spec fn mode_of(text: Seq<char>) -> Option<Mode> {
    if text == "run"@ {
        Some(Mode::Run)
    } else if text == "get"@ {
        Some(Mode::Get)
    } else if text == "all"@ {
        Some(Mode::All)
    } else {
        None
    }
}

/// Reads an execution mode. Any text other than the three mode names gives
/// `None`.
pub fn parse_mode(text: &str) -> (mode: Option<Mode>)
    ensures
        mode == mode_of(text@),
{
    let given = String::from_str(text);
    if given == String::from_str("run") {
        Some(Mode::Run)
    } else if given == String::from_str("get") {
        Some(Mode::Get)
    } else if given == String::from_str("all") {
        Some(Mode::All)
    } else {
        None
    }
}

} // verus!

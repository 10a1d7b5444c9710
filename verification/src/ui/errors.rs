//! Errors the terminal surface can report.

use vstd::prelude::*;
use vstd::string::StringExecFns;

verus! {

/// Why preparing or painting the terminal failed.
#[derive(Clone, Copy, Debug, PartialEq, Eq, Structural)]
pub enum UIError {
    /// The terminal window is too small to lay the mixer out.
    TerminalTooSmall,
    /// The terminal back end reported an I/O failure.
    TerminalError,
}

impl UIError {
    /// A human-readable description of the error.
    pub fn message(&self) -> (r: String)
        ensures
            *self is TerminalTooSmall ==> r@ == "terminal window is too small"@,
            *self is TerminalError ==> r@ == "crossterm terminal error"@,
    {
        match self {
            UIError::TerminalTooSmall => String::from_str("terminal window is too small"),
            UIError::TerminalError => String::from_str("crossterm terminal error"),
        }
    }
}

} // verus!

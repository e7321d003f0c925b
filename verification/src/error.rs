//! What can go wrong in the multiplexer.

use vstd::prelude::*;

verus! {

/// The failures that the multiplexer reports to its caller.
#[derive(Clone, Copy, Debug, PartialEq, Eq)]
pub enum TuiError {
    /// A tick or frame rate that is not strictly positive.
    InvalidRate,
    /// The queue is closed and drained: no event can arrive any more.
    ChannelClosed,
    /// The terminal driver refused a mode change.
    TerminalModeFault,
}

impl TuiError {
    /// A short description for diagnostics.
    pub fn message(&self) -> (text: &'static str)
        ensures
            text@ == (match *self {
                TuiError::InvalidRate => "rate must be greater than zero"@,
                TuiError::ChannelClosed => "Unable to get event"@,
                TuiError::TerminalModeFault => "terminal mode change failed"@,
            }),
    {
        match self {
            TuiError::InvalidRate => "rate must be greater than zero",
            TuiError::ChannelClosed => "Unable to get event",
            TuiError::TerminalModeFault => "terminal mode change failed",
        }
    }
}

} // verus!

//! What ends a trace session before the tracee is done.
use crate::render::decimal;
use crate::render::push_decimal;
use vstd::prelude::*;

verus! {

/// A failure that no session goes on after.
#[derive(Clone, Copy, Debug, PartialEq, Eq, Structural)]
pub enum TraceError {
    /// The tracee made a system call whose number the signature table does
    /// not hold: the table and the platform do not match.
    UnknownSyscall { number: u64 },
    /// The tracee could not be resumed after a stop, and stays suspended.
    ResumeFailed,
}

impl TraceError {
    /// The error in words.
    pub open spec fn message_text(self) -> Seq<char> {
        match self {
            TraceError::UnknownSyscall { number } => "no signature for system call "@ + decimal(
                number as nat,
            ),
            TraceError::ResumeFailed => "the tracee could not be resumed"@,
        }
    }

    /// The error in words.
    pub fn message(&self) -> (text: String)
        ensures
            text@ == self.message_text(),
    {
        match self {
            TraceError::UnknownSyscall { number } => {
                let mut text = String::from_str("no signature for system call ");
                push_decimal(&mut text, *number);
                text
            },
            TraceError::ResumeFailed => String::from_str("the tracee could not be resumed"),
        }
    }
}

} // verus!

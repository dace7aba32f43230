//! Failures that the protocol reports to its caller.

use vstd::prelude::*;

verus! {

/// Why a callback produced no event.
#[derive(Debug, Clone, Copy, PartialEq, Eq)]
pub enum ErrorCode {
    /// The cluster could not complete the circuit.
    AbortedComputation,
    /// The cluster's output is shorter than the fixed payload layout.
    MalformedPayload,
}

impl ErrorCode {
    /// The text shown to a caller for this failure.
    pub open spec fn message_text(self) -> Seq<char> {
        match self {
            ErrorCode::AbortedComputation => "The computation was aborted"@,
            ErrorCode::MalformedPayload => "The computation output is malformed"@,
        }
    }

    pub fn message(&self) -> (text: &'static str)
        ensures
            text@ == self.message_text(),
    {
        match self {
            ErrorCode::AbortedComputation => "The computation was aborted",
            ErrorCode::MalformedPayload => "The computation output is malformed",
        }
    }
}

} // verus!

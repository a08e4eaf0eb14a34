//! The table of result codes.
//!
//! A call that yields a line answers with the line's length in bytes, which
//! is never negative. Every other call answers with one of six negative
//! codes, one for each [`Condition`].

use vstd::prelude::*;

verus! {

/// Why a call produced no line.
#[derive(Debug, Clone, Copy, PartialEq, Eq, Structural)]
pub enum Condition {
    /// A line was read, but the buffer has no room for it.
    Overflow,
    /// The input stream ended.
    EndOfInput,
    /// The user interrupted the edit.
    Interrupted,
    /// The terminal window changed size during the edit.
    Resized,
    /// The editor failed while reading, in any other way.
    EditorFailure,
    /// No editing session could be set up.
    SessionFailure,
}

impl Condition {
    /// The integer that stands for this condition at the boundary.
    pub open spec fn code(self) -> int {
        match self {
            Condition::Overflow => -1,
            Condition::EndOfInput => -2,
            Condition::Interrupted => -3,
            Condition::Resized => -4,
            Condition::EditorFailure => -5,
            Condition::SessionFailure => -6,
        }
    }

    /// Encodes the condition as its result code.
    pub fn to_code(self) -> (code: i32)
        ensures
            code == self.code(),
    {
        match self {
            Condition::Overflow => -1,
            Condition::EndOfInput => -2,
            Condition::Interrupted => -3,
            Condition::Resized => -4,
            Condition::EditorFailure => -5,
            Condition::SessionFailure => -6,
        }
    }
}

/// Every condition's code is negative, so none can be taken for a line
/// length, and no two conditions share a code.
pub proof fn lemma_codes_distinct(a: Condition, b: Condition)
    ensures
        -6 <= a.code() <= -1,
        a.code() == b.code() <==> a == b,
{
}

} // verus!

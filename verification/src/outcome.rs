//! What an editing session can come back with.
//!
//! The editor reports a finished read as a line or as an error of its own
//! type. [`ReadOutcome`] is that report in the five kinds the boundary tells
//! apart, and [`Attempt`] adds the case that no session could be opened.

use rustyline::error::ReadlineError;
use vstd::prelude::*;

verus! {

/// How one blocking read ended.
#[derive(Debug, PartialEq, Eq)]
pub enum ReadOutcome {
    /// The user submitted this line.
    Submitted(String),
    /// The input stream reached its end.
    EndOfInput,
    /// The user interrupted the edit.
    Interrupted,
    /// The terminal window changed size during the edit.
    Resized,
    /// The editor failed in some other way.
    OtherFailure,
}

/// How one call went, up to the point where the reply is built.
#[derive(Debug, PartialEq, Eq)]
pub enum Attempt {
    /// No editing session could be set up, so nothing was read.
    SessionFailed,
    /// A session was set up and its one read ended like this.
    Completed(ReadOutcome),
}

/// The editor's error type, carried through as an opaque value.
#[verifier::external_type_specification]
#[verifier::external_body]
pub struct ExReadlineError(ReadlineError);

/// The outcome that an editor error stands for.
pub uninterp spec fn failure_outcome(error: ReadlineError) -> ReadOutcome;

/// Tells the variants of `rustyline::error::ReadlineError` apart: `Eof` is
/// the end of input, `Interrupted` an interrupt, `WindowResized` a resize,
/// and every other variant some other failure. The contract claims that the
/// answer depends on the error alone and is never a submitted line.
#[verifier::external_body]
fn classify_error(error: &ReadlineError) -> (outcome: ReadOutcome)
    ensures
        outcome == failure_outcome(*error),
        !(outcome is Submitted),
{
    match error {
        ReadlineError::Eof => ReadOutcome::EndOfInput,
        ReadlineError::Interrupted => ReadOutcome::Interrupted,
        ReadlineError::WindowResized => ReadOutcome::Resized,
        _ => ReadOutcome::OtherFailure,
    }
}

/// Turns the editor's answer to a read into a [`ReadOutcome`]: a line is
/// submitted as it is, an error is classified by its variant.
pub fn outcome_of(result: Result<String, ReadlineError>) -> (outcome: ReadOutcome)
    ensures
        outcome == match result {
            Ok(line) => ReadOutcome::Submitted(line),
            Err(error) => failure_outcome(error),
        },
        outcome is Submitted <==> result is Ok,
{
    match result {
        Ok(line) => ReadOutcome::Submitted(line),
        Err(error) => classify_error(&error),
    }
}

} // verus!

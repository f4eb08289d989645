//! Reports of failed input or output on a live session.
//!
//! A write or a resize that fails is reported to the caller and changes
//! nothing: the session stays entered and its reader keeps running.
use vstd::prelude::*;
use vstd::string::StringExecFns;

verus! {

/// The operations on a live session that can fail.
#[derive(Clone, Copy, Debug, PartialEq, Eq, Structural)]
pub enum Operation {
    /// Sending text to the session's input.
    Write,
    /// Changing the geometry of the session's pseudo-terminal.
    Resize,
}

/// The report of a failed operation: it names the operation, the session and
/// the cause.
pub open spec fn failure_text(operation: Operation, session: Seq<char>, cause: Seq<char>) -> Seq<
    char,
> {
    match operation {
        Operation::Write => "write to session "@ + session + " failed: "@ + cause,
        Operation::Resize => "resize of session "@ + session + " failed: "@ + cause,
    }
}

/// Words the report of an operation on `session` that failed with `cause`.
pub fn failure_report(operation: Operation, session: &str, cause: &str) -> (report: String)
    ensures
        report@ == failure_text(operation, session@, cause@),
{
    let subject = match operation {
        Operation::Write => String::from_str("write to session "),
        Operation::Resize => String::from_str("resize of session "),
    };
    subject.concat(session).concat(" failed: ").concat(cause)
}

} // verus!

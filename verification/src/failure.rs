//! How a failed operation is reported to the caller.
//!
//! The shell has one kind of error: a line of text. Whatever went wrong
//! outside (a request that could not be sent, a program that could not be
//! started) is described by the layer that saw it, and that description is
//! passed on behind a fixed opening.

use vstd::prelude::*;

verus! {

/// The words that open every error message.
pub open spec fn failure_opening() -> Seq<char> {
    "operation failed: "@
}

/// The error message for a failure described by `description`.
pub open spec fn failure_text(description: Seq<char>) -> Seq<char> {
    failure_opening() + description
}

/// Makes the error message for a failure described by `description`.
pub fn failure_message(description: &str) -> (message: String)
    ensures
        message@ == failure_text(description@),
{
    let mut message = String::from_str("operation failed: ");
    message.append(description);
    message
}

} // verus!

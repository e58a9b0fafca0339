//! The greeting shown to a user by name.

use vstd::prelude::*;
use crate::text::{contains_text, lemma_middle_occurs, occurs_at};

verus! {

/// What the greeting says before the name.
pub open spec fn greeting_opening() -> Seq<char> {
    "Hello, "@
}

/// What the greeting says after the name.
pub open spec fn greeting_closing() -> Seq<char> {
    "! Welcome to ResumeAI Desktop!"@
}

/// The greeting for `name`: the name, unchanged, between the two fixed parts.
pub open spec fn greeting(name: Seq<char>) -> Seq<char> {
    greeting_opening() + name + greeting_closing()
}

/// Every greeting holds the name it was made for, unbroken and right behind
/// the opening words. This holds of every name, the empty one too.
pub proof fn lemma_greeting_holds_name(name: Seq<char>)
    ensures
        occurs_at(greeting(name), name, greeting_opening().len() as int),
        contains_text(greeting(name), name),
{
    lemma_middle_occurs(greeting_opening(), name, greeting_closing());
}

/// Greets `name`. There is no name for which this fails.
pub fn greet(name: &str) -> (message: String)
    ensures
        message@ == greeting(name@),
        contains_text(message@, name@),
{
    let mut message = String::from_str("Hello, ");
    message.append(name);
    message.append("! Welcome to ResumeAI Desktop!");
    proof {
        lemma_greeting_holds_name(name@);
    }
    message
}

} // verus!

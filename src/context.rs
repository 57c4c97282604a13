//! Errors of the script context.

use vstd::prelude::*;

verus! {

/// Failure of running a script in the context, with the engine's message.
#[derive(Debug, PartialEq, Eq)]
pub enum JSContextError {
    /// The source did not parse.
    Parse(String),
    /// Evaluation ended in an exception that the script did not catch.
    Uncaught(String),
}

} // verus!

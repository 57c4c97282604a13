//! The native entry points that extensions install into the engine's global
//! namespace, reduced to the decisions they take on plain values: argument
//! checks, state changes, and what goes back to script.

use vstd::prelude::*;

pub mod document;
pub mod node;
pub mod time;

verus! {

/// A bad argument to a native entry point; script code receives it as an
/// engine-level exception that it can catch.
#[derive(Clone, Copy, Debug, PartialEq, Eq, Structural)]
pub enum ArgError {
    /// The call did not pass this many arguments.
    ExpectedArgs(usize),
    /// An argument that must convert to an integer did not.
    ExpectedInt,
    /// An argument that must be a string was not.
    ExpectedString,
    /// An argument that must be callable was not.
    ExpectedFunction,
    /// The node has no attribute of the requested name.
    NoAttribute,
}

} // verus!

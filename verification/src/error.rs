use vstd::prelude::*;

use crate::op::NumParams;
use crate::value::Value;

verus! {

/// Errors raised while recognising an operation in a rule.
#[derive(Debug, PartialEq)]
pub enum Error {
    /// The arguments of an operation that does not accept a single bare
    /// argument were not given as an array.
    InvalidOperation { key: String, reason: String },
    /// An operation was given a number of arguments that it does not accept.
    WrongArgumentCount { expected: NumParams, actual: usize },
    /// An operator was given an argument that it cannot work on.
    InvalidArgument { value: Value, operation: String, reason: String },
    /// A state that the lookup does not expect, such as a registry whose lock
    /// could not be taken.
    UnexpectedError(String),
}

} // verus!

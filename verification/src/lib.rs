//! Operator lookup for JsonLogic rules.
//!
//! A JsonLogic rule is a JSON value. Where such a value is an object with a
//! single key that names an operator, it is an operation: the key names the
//! operator and the value under it holds the arguments. This crate models the
//! JSON values, the tables of built-in operators, the registry of custom
//! operators, and the lookup that recognises an operation in a value and
//! checks its number of arguments.
//!
//! The crate stops at the lookup. Evaluating an operation is not part of it:
//! a built-in operator is known here by its symbol and the numbers of
//! arguments that it accepts, without the function that computes it, and
//! operations whose arguments are themselves parsed into rules before they
//! run (the eager and the data operations) have no type here. What such an
//! operation is looked up by is `op::op_from_static_and_dynamic`. Operators
//! registered at run time carry the user's function and can run it.

pub mod error;
pub mod op;
pub mod value;

pub use error::Error;
pub use op::NumParams;
pub use value::{magnitude_bits, numbers_equal, Number, Value, ValueModel};

//! Failure kinds of an expression engine and their colourised diagnostics.
//!
//! The evaluator raises an [`error::EngineError`] whenever an operation has no
//! handler for its operands, an identifier cannot be resolved or redeclared, or
//! a call site breaks a function's signature. [`error::EngineError::render`]
//! turns such a value into the one-line diagnostic shown to the user.

pub mod error;
pub mod highlight;
pub mod laws;
pub mod text;
pub mod val;

//! Typed errors for a littlefs-style storage engine.
//!
//! The engine reports the outcome of every operation as a signed integer.
//! This crate turns such a code into a closed [`error::Error`] value and
//! pairs it with the value an operation produced, so that callers match on
//! a type rather than on numbers.

pub mod error;
pub mod ll;
pub mod path;

//! Errors.

use vstd::prelude::*;

verus! {

/// What can go wrong.
#[derive(Debug)]
pub enum LimboError {
    /// An argument that is not accepted, and why.
    InvalidArgument(String),
    /// Something that should not have happened.
    InternalError(String),
    /// An error of the storage engine, by its text.
    Engine(String),
}

} // verus!

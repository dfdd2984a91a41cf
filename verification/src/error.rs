//! Errors of the library.

use vstd::prelude::*;

verus! {

/// An error of the library.
#[derive(Debug)]
pub enum OxanusError {
    /// A failure described by its message.
    GenericError(String),
    /// A registered worker could not build a job from its arguments.
    JobFactoryError(String),
}

} // verus!

//! The validation interfaces request bodies implement before a flow acts
//! on them.

use vstd::prelude::*;

verus! {

/// A request body that can vet its own fields before a flow acts on it,
/// reporting a failure of the given shape; most report a bare response
/// code.
pub trait Validatable<T> {
    fn validate(&self) -> Result<(), T>;
}

/// A validation failure described in words.
pub struct ValidatorError {
    pub message: String,
}

/// A value that can vet itself, reporting a described failure.
pub trait Validate {
    fn validate(&self) -> Result<(), ValidatorError>;
}

} // verus!

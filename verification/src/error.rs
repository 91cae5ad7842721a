//! The error that the builder reports.

use vstd::prelude::*;

verus! {

/// What can go wrong while an identifier is configured or built.
#[derive(Clone, Debug)]
pub enum PuidError {
    /// The prefix is empty, longer than eight characters, or holds a
    /// character that is not an ASCII letter or digit.
    InvalidPrefix,
}

/// The result of a step that may reject its input.
pub type PuidResult<T> = Result<T, PuidError>;

/// The text that describes `PuidError::InvalidPrefix`.
pub const INVALID_PREFIX_TEXT: &'static str =
    "Prefix cannot be longer than 8 characters with non-alphanumeric characters or non empty.";

impl PuidError {
    /// The fixed, human-readable description of the error.
    pub fn message(&self) -> (text: String)
        ensures
            text@ == INVALID_PREFIX_TEXT@,
    {
        match self {
            PuidError::InvalidPrefix => INVALID_PREFIX_TEXT.to_owned(),
        }
    }
}

} // verus!

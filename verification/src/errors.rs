//! The error taxonomy of the component.
//!
//! Every error is fatal for the invocation that raised it: the caller aborts
//! without mutating the persisted record.

use vstd::prelude::*;

verus! {

/// Why an invocation was aborted.
#[derive(Clone, Copy, Debug, PartialEq, Eq, Structural)]
pub enum UpdateError {
    /// The record's controlling identity does not match the expected
    /// controller.
    Unauthorized,
    /// The persisted bytes could not be decoded into the record shape.
    MalformedExistingRecord,
    /// The updated record does not fit into the available storage.
    SerializationFailure,
}

impl UpdateError {
    /// A human-readable diagnostic line for the error, for the hosting
    /// runtime's log. Informational only: it carries no contract beyond its
    /// exact wording.
    pub fn message(&self) -> (text: &'static str)
        ensures
            *self is Unauthorized ==> text@ == "account does not have the correct controlling identity"@,
            *self is MalformedExistingRecord ==> text@ == "persisted record bytes are malformed"@,
            *self is SerializationFailure ==> text@ == "updated record does not fit into the available storage"@,
    {
        match self {
            UpdateError::Unauthorized => "account does not have the correct controlling identity",
            UpdateError::MalformedExistingRecord => "persisted record bytes are malformed",
            UpdateError::SerializationFailure => "updated record does not fit into the available storage",
        }
    }
}

} // verus!

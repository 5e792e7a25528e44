//! Errors of the domain core.

use vstd::prelude::*;

use crate::path::FsPath;

verus! {

/// Every way in which a domain operation can refuse its input.
#[derive(Debug, Clone)]
pub enum DomainError {
    /// A lifecycle move that the transition table does not hold.
    InvalidStateTransition { entity: String, from: String, to: String },
    /// A write outside the session's declared scope.
    WriteViolation { target_path: FsPath, scope: String, reason: String },
    /// A malformed or incomplete session brief.
    InvalidBrief { reason: String },
    /// An operation reserved to human actors.
    HumanActorRequired { operation: String },
    /// An entity that could not be found.
    NotFound { entity_type: String, id: String },
    /// An entity in a state that does not admit the operation.
    InvalidState { message: String },
    /// A precondition of the operation does not hold.
    PreconditionFailed { message: String },
}

} // verus!

//! Typed failures, one enum per layer.
//!
//! The identity mismatch carries the externally supplied value, the
//! recomputed value and the model's type name, so a caller can report
//! exactly what disagreed; it is never coerced into trusting the stored
//! value.

use crate::identity::Identity;
use vstd::prelude::*;

verus! {

/// A failure within the domain layer.
#[derive(Debug)]
pub enum DomainError {
    /// A recomputed identity disagreed with the externally supplied one
    /// while an entity was being rehydrated from persisted data.
    IdMismatch { model: String, expected: Identity, computed: Identity },
}

impl DomainError {
    /// An identity mismatch for the named model, carrying both the supplied
    /// and the recomputed value.
    pub fn id_mismatch(model: String, expected: Identity, computed: Identity) -> (r: Self)
        ensures
            r == (DomainError::IdMismatch { model, expected, computed }),
    {
        DomainError::IdMismatch { model, expected, computed }
    }
}

/// A failure within the core layer.
#[derive(Debug)]
pub enum Error {
    /// An unexpected internal failure, described by a message.
    Internal { message: String },
    /// A recomputed identity disagreed with the externally supplied one
    /// while an entity was being rehydrated from persisted data.
    IdMismatch { model: String, expected: Identity, computed: Identity },
}

impl Error {
    /// An internal failure with the given description.
    pub fn internal(message: String) -> (r: Self)
        ensures
            r == (Error::Internal { message }),
    {
        Error::Internal { message }
    }

    /// An internal failure: the context is put in front of the underlying
    /// cause's description.
    pub fn internal_with_message(cause: String, message: String) -> (r: Self)
        ensures
            r matches Error::Internal { message: m } && m@ == message@ + ": "@ + cause@,
    {
        let joined = message.concat(": ").concat(cause.as_str());
        Error::Internal { message: joined }
    }

    /// An identity mismatch for the named model, carrying both the supplied
    /// and the recomputed value.
    pub fn id_mismatch(model: String, expected: Identity, computed: Identity) -> (r: Self)
        ensures
            r == (Error::IdMismatch { model, expected, computed }),
    {
        Error::IdMismatch { model, expected, computed }
    }
}

/// A failure within the application layer.
#[derive(Debug)]
pub enum ApplicationError {
    /// A failure that surfaced from the domain layer.
    Domain(DomainError),
    /// An unexpected internal failure, described by a message.
    Internal { message: String },
    /// An entity could not be created because one with the same key already
    /// exists.
    EntityAlreadyExists { entity: String, message: String },
}

impl ApplicationError {
    /// An internal failure with the given description.
    pub fn internal(message: String) -> (r: Self)
        ensures
            r == (ApplicationError::Internal { message }),
    {
        ApplicationError::Internal { message }
    }

    /// An internal failure: the context is put in front of the underlying
    /// cause's description.
    pub fn internal_with_message(cause: String, message: String) -> (r: Self)
        ensures
            r matches ApplicationError::Internal { message: m } && m@ == message@ + ": "@ + cause@,
    {
        let joined = message.concat(": ").concat(cause.as_str());
        ApplicationError::Internal { message: joined }
    }

    /// A duplicate-entity failure for the named entity kind.
    pub fn entity_already_exists(entity: String, message: String) -> (r: Self)
        ensures
            r == (ApplicationError::EntityAlreadyExists { entity, message }),
    {
        ApplicationError::EntityAlreadyExists { entity, message }
    }
}

impl From<DomainError> for ApplicationError {
    /// Wraps a domain failure unchanged.
    fn from(e: DomainError) -> (r: Self) {
        ApplicationError::Domain(e)
    }
}

impl vstd::std_specs::convert::FromSpecImpl<DomainError> for ApplicationError {
    open spec fn obeys_from_spec() -> bool {
        true
    }

    open spec fn from_spec(e: DomainError) -> Self {
        ApplicationError::Domain(e)
    }
}

/// A failure within the infrastructure layer.
#[derive(Debug)]
pub enum InfrastructureError {
    /// An unexpected internal failure, described by a message.
    Internal { message: String },
}

impl InfrastructureError {
    /// An internal failure with the given description.
    pub fn internal(message: String) -> (r: Self)
        ensures
            r == (InfrastructureError::Internal { message }),
    {
        InfrastructureError::Internal { message }
    }

    /// An internal failure: the context is put in front of the underlying
    /// cause's description.
    pub fn internal_with_message(cause: String, message: String) -> (r: Self)
        ensures
            r matches InfrastructureError::Internal { message: m } && m@ == message@ + ": "@ + cause@,
    {
        let joined = message.concat(": ").concat(cause.as_str());
        InfrastructureError::Internal { message: joined }
    }
}

} // verus!

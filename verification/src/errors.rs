//! Domain errors.
use vstd::prelude::*;

use crate::text::{has_prefix, text_has_prefix};

verus! {

/// Errors of the domain operations.
#[derive(Debug)]
pub enum DomainError {
    NotFound { entity: &'static str, field: &'static str, value: String },
    Validation(String),
    Conflict(String),
    Unauthorized(String),
    Forbidden(String),
    ChargePointOffline(String),
    CommandTimeout(String),
}

/// The text of a domain error, as `Display` writes it.
pub open spec fn domain_message(e: DomainError) -> Seq<char> {
    match e {
        DomainError::NotFound { entity, field, value } => "Not found: "@ + entity@ + " with "@
            + field@ + "="@ + value@,
        DomainError::Validation(m) => "Validation: "@ + m@,
        DomainError::Conflict(m) => "Already exists: "@ + m@,
        DomainError::Unauthorized(m) => "Unauthorized: "@ + m@,
        DomainError::Forbidden(m) => "Forbidden: "@ + m@,
        DomainError::ChargePointOffline(id) => "Charge point "@ + id@ + " is not connected"@,
        DomainError::CommandTimeout(id) => "Command timeout for "@ + id@,
    }
}

impl DomainError {
    /// Whether this error is likely transient (a database error reported as
    /// a validation error whose message starts with `Database error:`) and
    /// the operation may succeed if retried.
    pub fn is_transient(&self) -> (r: bool)
        ensures
            r == (self matches DomainError::Validation(m) && has_prefix(m@, "Database error:"@)),
    {
        match self {
            DomainError::Validation(msg) => text_has_prefix(msg.as_str(), "Database error:"),
            _ => false,
        }
    }

    /// The HTTP status a failed user creation is answered with: 400 for a
    /// validation error, 409 for a conflict, 500 otherwise.
    pub fn user_creation_status(&self) -> (r: u16)
        ensures
            r == match *self {
                DomainError::Validation(_) => 400u16,
                DomainError::Conflict(_) => 409u16,
                _ => 500u16,
            },
    {
        match self {
            DomainError::Validation(_) => 400,
            DomainError::Conflict(_) => 409,
            _ => 500,
        }
    }

    /// The HTTP status a failed user deletion is answered with: 404 when the
    /// user was not found, 500 otherwise.
    pub fn user_deletion_status(&self) -> (r: u16)
        ensures
            r == match *self {
                DomainError::NotFound { .. } => 404u16,
                _ => 500u16,
            },
    {
        match self {
            DomainError::NotFound { .. } => 404,
            _ => 500,
        }
    }

    /// The human-readable message (what `Display` writes).
    pub fn message(&self) -> (r: String)
        ensures
            r@ == domain_message(*self),
    {
        match self {
            DomainError::NotFound { entity, field, value } => {
                let mut s = String::from_str("Not found: ");
                s.append(entity);
                s.append(" with ");
                s.append(field);
                s.append("=");
                s.append(value.as_str());
                s
            },
            DomainError::Validation(m) => {
                let mut s = String::from_str("Validation: ");
                s.append(m.as_str());
                s
            },
            DomainError::Conflict(m) => {
                let mut s = String::from_str("Already exists: ");
                s.append(m.as_str());
                s
            },
            DomainError::Unauthorized(m) => {
                let mut s = String::from_str("Unauthorized: ");
                s.append(m.as_str());
                s
            },
            DomainError::Forbidden(m) => {
                let mut s = String::from_str("Forbidden: ");
                s.append(m.as_str());
                s
            },
            DomainError::ChargePointOffline(id) => {
                let mut s = String::from_str("Charge point ");
                s.append(id.as_str());
                s.append(" is not connected");
                s
            },
            DomainError::CommandTimeout(id) => {
                let mut s = String::from_str("Command timeout for ");
                s.append(id.as_str());
                s
            },
        }
    }
}

} // verus!

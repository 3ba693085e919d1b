//! The error taxonomy, deliberately minimal: access-check paths fail
//! closed and never raise these; they exist for callers that must report a
//! refused mutation or a missing subject.

use vstd::prelude::*;

verus! {

/// Why a request was refused.
#[derive(Debug, PartialEq, Eq, Structural)]
pub enum AccessError {
    InvalidRole,
    UserNotFound,
    AccessDenied,
}

impl AccessError {
    /// A human-readable description of the error.
    pub fn message(&self) -> (r: &'static str)
        ensures
            *self is InvalidRole ==> r@ == "Invalid role provided"@,
            *self is UserNotFound ==> r@ == "User not found"@,
            *self is AccessDenied ==> r@ == "Access denied"@,
    {
        match self {
            AccessError::InvalidRole => "Invalid role provided",
            AccessError::UserNotFound => "User not found",
            AccessError::AccessDenied => "Access denied",
        }
    }
}

} // verus!

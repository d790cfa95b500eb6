//! The failure kinds of the catalog and the HTTP status each one maps to.

use vstd::prelude::*;

verus! {

/// What can go wrong while serving a request.
#[derive(Clone, Copy, Debug, PartialEq, Eq, Structural)]
pub enum AppError {
    /// The request was malformed or lacked a required field.
    Validation,
    /// No row carries the given identifier.
    NotFound,
    /// The statement would break a constraint of the schema.
    ConstraintViolation,
    /// Any other storage or connectivity failure.
    Storage,
}

/// Status of a successful request that carries a body.
pub const STATUS_OK: u16 = 200;

/// Status of a successful request without a body.
pub const STATUS_NO_CONTENT: u16 = 204;

impl AppError {
    /// The status code that stands for this failure: every kind has its own.
    pub open spec fn status(self) -> u16 {
        match self {
            AppError::Validation => 400,
            AppError::NotFound => 404,
            AppError::ConstraintViolation => 409,
            AppError::Storage => 500,
        }
    }

    /// The HTTP status code that a handler answers with for this failure.
    pub fn status_code(&self) -> (code: u16)
        ensures
            code == self.status(),
    {
        match self {
            AppError::Validation => 400,
            AppError::NotFound => 404,
            AppError::ConstraintViolation => 409,
            AppError::Storage => 500,
        }
    }
}

/// Two failure kinds that answer with the same status are the same kind, and
/// no failure answers with a status of success.
pub proof fn status_tells_kinds_apart(a: AppError, b: AppError)
    ensures
        a.status() == b.status() ==> a == b,
        a.status() != STATUS_OK,
        a.status() != STATUS_NO_CONTENT,
        400 <= a.status() < 600,
{
}

} // verus!

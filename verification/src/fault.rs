//! What a failure of the database client amounts to, and the failure kind
//! of the catalog that each such fault is reported as.

use vstd::prelude::*;
use crate::error::AppError;

verus! {

/// What a failure of the database client amounts to. The program that holds
/// the client tells its errors apart into these.
#[derive(Clone, Copy, Debug, PartialEq, Eq, Structural)]
pub enum Fault {
    /// A statement that expected a row found none.
    NoRow,
    /// A unique or primary key constraint was violated.
    UniqueViolation,
    /// A foreign key constraint was violated.
    ForeignKeyViolation,
    /// A not-null constraint was violated.
    NotNullViolation,
    /// A check constraint was violated.
    CheckViolation,
    /// Anything else: connectivity, protocol, decoding, the pool.
    Other,
}

impl Fault {
    /// The failure kind that a fault is reported as: a missing row is
    /// `NotFound`, a violated constraint of any sort is
    /// `ConstraintViolation`, everything else is `Storage`.
    pub open spec fn kind(self) -> AppError {
        match self {
            Fault::NoRow => AppError::NotFound,
            Fault::UniqueViolation => AppError::ConstraintViolation,
            Fault::ForeignKeyViolation => AppError::ConstraintViolation,
            Fault::NotNullViolation => AppError::ConstraintViolation,
            Fault::CheckViolation => AppError::ConstraintViolation,
            Fault::Other => AppError::Storage,
        }
    }
}

/// The failure kind that a fault of the database client is reported as. It
/// is never `Validation`: the data layer sees only validated commands.
pub fn classify(fault: Fault) -> (kind: AppError)
    ensures
        kind == fault.kind(),
        kind != AppError::Validation,
{
    match fault {
        Fault::NoRow => AppError::NotFound,
        Fault::Other => AppError::Storage,
        _ => AppError::ConstraintViolation,
    }
}

/// No fault is collapsed into another kind's status: a missing row answers
/// 404, a violated constraint 409, and only the rest 500.
pub proof fn faults_keep_their_status(fault: Fault)
    ensures
        fault == Fault::NoRow <==> fault.kind().status() == 404,
        fault == Fault::Other <==> fault.kind().status() == 500,
        fault != Fault::NoRow && fault != Fault::Other <==> fault.kind().status() == 409,
{
}

} // verus!

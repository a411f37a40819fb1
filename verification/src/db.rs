//! Storage failures as the service sees them.
//!
//! The storage layer reports its failures as [`DbError`] values: the
//! SQLite result code where SQLite produced the failure, a marker for a
//! query that found no row, and the failure's text.

use vstd::prelude::*;

verus! {

/// The primary result codes of SQLite, one variant per code family.
#[derive(Clone, Copy, Debug, PartialEq, Eq, Structural)]
pub enum SqliteErrorCode {
    InternalMalfunction,
    PermissionDenied,
    OperationAborted,
    DatabaseBusy,
    DatabaseLocked,
    OutOfMemory,
    ReadOnly,
    OperationInterrupted,
    SystemIoFailure,
    DatabaseCorrupt,
    NotFound,
    DiskFull,
    CannotOpen,
    FileLockingProtocolFailed,
    SchemaChanged,
    TooBig,
    ConstraintViolation,
    TypeMismatch,
    ApiMisuse,
    NoLargeFileSupport,
    AuthorizationForStatementDenied,
    ParameterOutOfRange,
    NotADatabase,
    Unknown,
}

/// The extended result code of a violated primary key constraint.
pub const SQLITE_CONSTRAINT_PRIMARYKEY: i32 = 1555;

/// What went wrong in a storage operation.
#[derive(Clone, Copy, Debug, PartialEq, Eq, Structural)]
pub enum DbErrorKind {
    /// SQLite itself failed, with its primary and extended result codes.
    SqliteFailure { code: SqliteErrorCode, extended_code: i32 },
    /// A query that should have found a row found none.
    QueryReturnedNoRows,
    /// Any other failure of the storage layer.
    Other,
}

/// A storage failure: its kind and its text.
#[derive(Clone, Debug, PartialEq, Eq)]
pub struct DbError {
    pub kind: DbErrorKind,
    pub message: String,
}

pub open spec fn spec_is_primary_key_constraint(kind: DbErrorKind) -> bool {
    match kind {
        DbErrorKind::SqliteFailure { code, extended_code } => {
            code == SqliteErrorCode::ConstraintViolation && extended_code == SQLITE_CONSTRAINT_PRIMARYKEY
        },
        _ => false,
    }
}

/// Whether a storage failure is the violation of a primary key constraint,
/// that is, an attempt to store a second row under a key already taken.
pub fn is_primary_key_constraint(error: &DbError) -> (r: bool)
    ensures
        r == spec_is_primary_key_constraint(error.kind),
{
    match error.kind {
        DbErrorKind::SqliteFailure { code, extended_code } => {
            match code {
                SqliteErrorCode::ConstraintViolation => extended_code == SQLITE_CONSTRAINT_PRIMARYKEY,
                _ => false,
            }
        },
        _ => false,
    }
}

/// Whether a statement that reports how many rows it changed changed any.
pub fn rows_changed(count: usize) -> (r: bool)
    ensures
        r == (count != 0),
{
    count != 0
}

/// Whether a `count(*)` query found any row.
pub fn count_is_positive(count: i64) -> (r: bool)
    ensures
        r == (count != 0),
{
    count != 0
}

} // verus!

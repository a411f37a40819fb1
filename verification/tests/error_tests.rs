use actix_crud::db::{
    count_is_positive, is_primary_key_constraint, rows_changed, DbError, DbErrorKind, SqliteErrorCode,
    SQLITE_CONSTRAINT_PRIMARYKEY,
};
use actix_crud::error::{Error, ErrorKind};

fn failure(code: SqliteErrorCode, extended_code: i32) -> DbError {
    DbError {
        kind: DbErrorKind::SqliteFailure { code, extended_code },
        message: "UNIQUE constraint failed".to_string(),
    }
}

#[test]
fn primary_key_constraint_is_recognised() {
    assert!(is_primary_key_constraint(&failure(SqliteErrorCode::ConstraintViolation, SQLITE_CONSTRAINT_PRIMARYKEY)));
    assert_eq!(SQLITE_CONSTRAINT_PRIMARYKEY, 1555);
}

#[test]
fn other_failures_are_not_primary_key_constraints() {
    // a unique (not primary key) constraint
    assert!(!is_primary_key_constraint(&failure(SqliteErrorCode::ConstraintViolation, 2067)));
    assert!(!is_primary_key_constraint(&failure(SqliteErrorCode::DatabaseBusy, SQLITE_CONSTRAINT_PRIMARYKEY)));
    let no_rows = DbError { kind: DbErrorKind::QueryReturnedNoRows, message: "none".to_string() };
    assert!(!is_primary_key_constraint(&no_rows));
}

#[test]
fn storage_failures_become_answers() {
    let e = Error::from_db(failure(SqliteErrorCode::ConstraintViolation, SQLITE_CONSTRAINT_PRIMARYKEY));
    assert_eq!(e, Error { kind: ErrorKind::Conflict, message: "conflict".to_string() });
    assert_eq!(e.status_code(), 409);
    let e = Error::from_db(failure(SqliteErrorCode::DiskFull, 13));
    assert_eq!(e.kind, ErrorKind::InternalServerError);
    assert_eq!(e.message, "UNIQUE constraint failed");
    assert_eq!(e.status_code(), 500);
}

#[test]
fn failed_lookups_become_answers() {
    let e = Error::from_lookup(DbError { kind: DbErrorKind::QueryReturnedNoRows, message: "x".to_string() });
    assert_eq!(e, Error { kind: ErrorKind::NotFound, message: "not found".to_string() });
    assert_eq!(e.status_code(), 404);
    let e = Error::from_lookup(DbError { kind: DbErrorKind::Other, message: "broken".to_string() });
    assert_eq!(e, Error { kind: ErrorKind::InternalServerError, message: "broken".to_string() });
    // a primary key failure in a lookup is an internal error, not a conflict
    let e = Error::from_lookup(failure(SqliteErrorCode::ConstraintViolation, SQLITE_CONSTRAINT_PRIMARYKEY));
    assert_eq!(e.kind, ErrorKind::InternalServerError);
}

#[test]
fn status_codes() {
    assert_eq!(ErrorKind::BadRequest.status_code(), 400);
    assert_eq!(ErrorKind::Unauthorized.status_code(), 401);
    assert_eq!(ErrorKind::NotFound.status_code(), 404);
    assert_eq!(ErrorKind::Conflict.status_code(), 409);
    assert_eq!(ErrorKind::InternalServerError.status_code(), 500);
    let e = Error::internal("pool timed out".to_string());
    assert_eq!(e.to_string(), "pool timed out");
    assert_eq!(Error::new(ErrorKind::BadRequest, "x").message, "x");
}

#[test]
fn row_counts() {
    assert!(rows_changed(1));
    assert!(!rows_changed(0));
    assert!(count_is_positive(3));
    assert!(!count_is_positive(0));
}

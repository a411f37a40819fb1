//! The errors that the service answers requests with.

use vstd::prelude::*;
use crate::db::{DbError, DbErrorKind, is_primary_key_constraint, spec_is_primary_key_constraint};

verus! {

/// The kind of an error answer, one per HTTP status the service uses.
#[derive(Clone, Copy, Debug, PartialEq, Eq, Structural)]
pub enum ErrorKind {
    BadRequest,
    Unauthorized,
    NotFound,
    Conflict,
    InternalServerError,
}

impl ErrorKind {
    pub open spec fn spec_status_code(self) -> u16 {
        match self {
            ErrorKind::BadRequest => 400,
            ErrorKind::Unauthorized => 401,
            ErrorKind::NotFound => 404,
            ErrorKind::Conflict => 409,
            ErrorKind::InternalServerError => 500,
        }
    }

    /// The HTTP status code of the answer.
    pub fn status_code(&self) -> (r: u16)
        ensures
            r == self.spec_status_code(),
    {
        match self {
            ErrorKind::BadRequest => 400,
            ErrorKind::Unauthorized => 401,
            ErrorKind::NotFound => 404,
            ErrorKind::Conflict => 409,
            ErrorKind::InternalServerError => 500,
        }
    }
}

/// An error answer: its kind and the text sent as its body.
#[derive(Clone, Debug, PartialEq, Eq)]
pub struct Error {
    pub kind: ErrorKind,
    pub message: String,
}

impl Error {
    /// An error of the given kind with the given text.
    pub fn new(kind: ErrorKind, message: &str) -> (r: Error)
        ensures
            r.kind == kind,
            r.message@ == message@,
    {
        Error { kind, message: String::from_str(message) }
    }

    /// The error answer for a failure of the storage layer in general: a
    /// conflict when a key was already taken, else an internal error that
    /// carries the failure's text.
    pub fn from_db(error: DbError) -> (r: Error)
        ensures
            spec_is_primary_key_constraint(error.kind) ==> r.kind == ErrorKind::Conflict && r.message@ == "conflict"@,
            !spec_is_primary_key_constraint(error.kind) ==> r.kind == ErrorKind::InternalServerError && r.message@ == error.message@,
    {
        if is_primary_key_constraint(&error) {
            Error::new(ErrorKind::Conflict, "conflict")
        } else {
            Error { kind: ErrorKind::InternalServerError, message: error.message }
        }
    }

    /// The error answer for a failed lookup: not found when no row matched,
    /// else an internal error that carries the failure's text.
    pub fn from_lookup(error: DbError) -> (r: Error)
        ensures
            error.kind == DbErrorKind::QueryReturnedNoRows ==> r.kind == ErrorKind::NotFound && r.message@ == "not found"@,
            error.kind != DbErrorKind::QueryReturnedNoRows ==> r.kind == ErrorKind::InternalServerError && r.message@ == error.message@,
    {
        match error.kind {
            DbErrorKind::QueryReturnedNoRows => Error::new(ErrorKind::NotFound, "not found"),
            _ => Error { kind: ErrorKind::InternalServerError, message: error.message },
        }
    }

    /// An internal error that carries the text of a failure elsewhere (the
    /// connection pool, password hashing).
    pub fn internal(message: String) -> (r: Error)
        ensures
            r.kind == ErrorKind::InternalServerError,
            r.message == message,
    {
        Error { kind: ErrorKind::InternalServerError, message }
    }

    /// The HTTP status code of the answer.
    pub fn status_code(&self) -> (r: u16)
        ensures
            r == self.kind.spec_status_code(),
    {
        self.kind.status_code()
    }

    /// The text of the answer, as the error displays it.
    pub fn to_string(&self) -> (r: String)
        ensures
            r@ == self.message@,
    {
        self.message.clone()
    }
}

} // verus!

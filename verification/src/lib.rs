//! Create, read, update and delete of per-user JSON documents, with user
//! accounts, login sessions and live update notifications.
//!
//! This crate holds the decisions of the service: which query a request
//! asks for, how results are ordered and paginated, when a password or a
//! session is accepted, which error a failure becomes, and which open
//! sessions hear of a change. The HTTP server and the SQLite storage that
//! carry these decisions out live in the application around it.

pub mod decimal;
pub mod db;
pub mod error;
pub mod ids;
pub mod json;
pub mod document;
pub mod response;
pub mod user;
pub mod updates;
pub mod db_entry;
pub mod setting;

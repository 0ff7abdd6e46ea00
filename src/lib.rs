//! Registration, lookup, partial update and deletion of users keyed by telephone:
//! the request checks, the update merge, the error classification, and an
//! in-memory table that carries out the four store operations.

pub mod dbaccess;
pub mod errors;
pub mod handlers;
pub mod models;
pub mod validation;

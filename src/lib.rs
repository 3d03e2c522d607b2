//! A small REST resource of "Rustacean" records: the repository over a SQLite
//! table, the Basic authentication guard, and the mapping from repository
//! outcomes to HTTP responses.
pub mod auth;
pub mod handlers;
pub mod models;
pub mod repositories;
mod store;

pub use auth::{BasicAuth, Credentials};
pub use handlers::{
    existence_checked, handle, internal_server_error, not_found, respond, route, unauthorized, unprocessable_entity, Reply,
    Request, Response, INTERNAL_SERVER_ERROR, LIST_LIMIT, NOT_FOUND, NO_CONTENT, OK, UNAUTHORIZED,
    UNPROCESSABLE_ENTITY,
};
pub use models::{NewRustacean, RepoError, Rustacean};
pub use repositories::{check_order, confirm_written, RustaceanRepository};

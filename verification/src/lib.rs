//! The decisions of a small HTTP service over two resources, `users` and
//! `cards`, kept in a relational store.
//!
//! Nothing here performs I/O. Each handler is split around its one datastore
//! call: a function that says which statement to run, and a function that
//! turns what the datastore answered into the reply. The caller owns the
//! connection pool, the listener and the wire encoding.

pub mod config;
pub mod health;
pub mod lifecycle;
pub mod routes;
pub mod schema;
pub mod statement;
pub mod status;
pub mod users;

pub use health::root;
pub use routes::app;
pub use users::{create_user, CreateUser, User};

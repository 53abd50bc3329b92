//! Verified core of a multi-user investment portfolio service.
pub mod text;
pub mod error;
pub mod auth;
pub mod models;
pub mod routes;

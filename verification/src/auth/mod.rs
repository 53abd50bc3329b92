//! Authentication of users and of the administrator.
pub mod admin;
pub mod secret;
pub mod user;

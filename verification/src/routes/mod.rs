//! Request handling decisions of the JSON API and of the HTML pages.
pub mod api;
pub mod display;
pub mod frontend;
pub mod number;

//! Requests that the web front end serves.
pub mod rules;
pub mod request;
pub mod sub;

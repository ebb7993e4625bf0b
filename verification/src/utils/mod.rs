//! Helpers shared by the library.
pub mod ini;
pub mod matcher;
pub mod network;
pub mod url;
pub mod base64;

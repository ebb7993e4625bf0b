//! Client configurations: node lists and their per-client formats.
pub mod formats;
pub mod group;
pub mod nodes;
pub mod subexport;
pub mod vmess;

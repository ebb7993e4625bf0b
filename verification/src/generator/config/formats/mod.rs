//! Per-client output formats.
pub mod loon;
pub mod surge;
pub mod quanx;
pub mod mellow;
pub mod single;
pub mod quan;
pub mod ssd;
pub mod ss_sub;

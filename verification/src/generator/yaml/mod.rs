//! YAML configuration output.
pub mod clash;
pub mod proxy_group_output;

//! Clash configuration output.
pub mod clash_output;
pub mod output_proxy_types;

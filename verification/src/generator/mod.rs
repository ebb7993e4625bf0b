//! Generation of client configurations and conversion of rules.
pub mod config;
pub mod ruleconvert;
pub mod yaml;

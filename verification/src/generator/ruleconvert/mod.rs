//! Conversion of rules between client dialects.
pub mod common;
pub mod convert_ruleset;
pub mod ruleset;
pub mod ruleset_to_clash;
pub mod ruleset_to_sing_box;
pub mod ruleset_to_surge;

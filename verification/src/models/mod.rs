//! Core data models: proxy nodes, proxy groups, rulesets and targets.
pub mod builder;
pub mod cron;
pub mod extra_settings;
pub mod proxy;
pub mod proxy_group_config;
pub mod proxy_node;
pub mod regex_match_config;
pub mod ruleset;
pub mod subconverter_target;

//! The settings of one conversion beyond its nodes and groups.
use super::regex_match_config::RegexMatchConfigs;
use crate::settings::Settings;
use vstd::prelude::*;

verus! {

/// Settings for one conversion.
#[derive(Debug, Clone)]
pub struct ExtraSettings {
    pub enable_rule_generator: bool,
    pub overwrite_original_rules: bool,
    pub rename_array: RegexMatchConfigs,
    pub emoji_array: RegexMatchConfigs,
    pub add_emoji: bool,
    pub remove_emoji: bool,
    pub append_proxy_type: bool,
    pub nodelist: bool,
    pub sort_flag: bool,
    pub filter_deprecated: bool,
    pub clash_new_field_name: bool,
    pub clash_script: bool,
    pub surge_ssr_path: String,
    pub managed_config_prefix: String,
    pub quanx_dev_id: String,
    pub udp: Option<bool>,
    pub tfo: Option<bool>,
    pub skip_cert_verify: Option<bool>,
    pub tls13: Option<bool>,
    pub clash_classical_ruleset: bool,
    pub sort_script: String,
    pub clash_proxies_style: String,
    pub clash_proxy_groups_style: String,
    pub authorized: bool,
}

/// A YAML style, `flow` where the setting gives none.
pub open spec fn style_or_flow(s: Seq<char>) -> Seq<char> {
    if s.len() == 0 {
        "flow"@
    } else {
        s
    }
}

impl ExtraSettings {
    /// The settings of a conversion before its request changes any: rule
    /// generation, overwriting and the ShadowsocksR program as the program's
    /// settings say, the YAML styles from them (`flow` where they give
    /// none), new Clash field names, and everything else off or empty.
    pub fn from_settings(global: &Settings) -> (r: Self)
        ensures
            r.enable_rule_generator == global.enable_rule_gen,
            r.overwrite_original_rules == global.overwrite_original_rules,
            r.rename_array@.len() == 0,
            r.emoji_array@.len() == 0,
            !r.add_emoji && !r.remove_emoji && !r.append_proxy_type && !r.nodelist,
            !r.sort_flag && !r.filter_deprecated && !r.clash_script && !r.clash_classical_ruleset,
            r.clash_new_field_name,
            r.surge_ssr_path@ == global.surge_ssr_path@,
            r.managed_config_prefix@.len() == 0,
            r.quanx_dev_id@.len() == 0,
            r.udp is None && r.tfo is None && r.skip_cert_verify is None && r.tls13 is None,
            r.sort_script@.len() == 0,
            r.clash_proxies_style@ == style_or_flow(global.clash_proxies_style@),
            r.clash_proxy_groups_style@ == style_or_flow(global.clash_proxy_groups_style@),
            !r.authorized,
    {
        ExtraSettings {
            enable_rule_generator: global.enable_rule_gen,
            overwrite_original_rules: global.overwrite_original_rules,
            rename_array: Vec::new(),
            emoji_array: Vec::new(),
            add_emoji: false,
            remove_emoji: false,
            append_proxy_type: false,
            nodelist: false,
            sort_flag: false,
            filter_deprecated: false,
            clash_new_field_name: true,
            clash_script: false,
            surge_ssr_path: global.surge_ssr_path.clone(),
            managed_config_prefix: String::new(),
            quanx_dev_id: String::new(),
            udp: None,
            tfo: None,
            skip_cert_verify: None,
            tls13: None,
            clash_classical_ruleset: false,
            sort_script: String::new(),
            clash_proxies_style: if global.clash_proxies_style.as_str().is_empty() {
                "flow".to_owned()
            } else {
                global.clash_proxies_style.clone()
            },
            clash_proxy_groups_style: if global.clash_proxy_groups_style.as_str().is_empty() {
                "flow".to_owned()
            } else {
                global.clash_proxy_groups_style.clone()
            },
            authorized: false,
        }
    }
}

} // verus!

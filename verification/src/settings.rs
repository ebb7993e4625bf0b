//! Settings of the program that conversions start from, and those read
//! from an external configuration (the rule bases per target).
use vstd::prelude::*;

verus! {

/// What an external configuration gives a conversion: base configuration
/// paths, one per client, remark filters and options.
#[derive(Debug, Clone, Default)]
pub struct ExternalSettings {
    pub clash_rule_base: String,
    pub surge_rule_base: String,
    pub surfboard_rule_base: String,
    pub mellow_rule_base: String,
    pub quan_rule_base: String,
    pub quanx_rule_base: String,
    pub loon_rule_base: String,
    pub sssub_rule_base: String,
    pub singbox_rule_base: String,
    /// Remark filters that nodes must match, where it gives any.
    pub include_remarks: Vec<String>,
    /// Remark filters that exclude nodes, where it gives any.
    pub exclude_remarks: Vec<String>,
    /// Whether emoji are added, where it says.
    pub add_emoji: Option<bool>,
    /// Whether old emoji are removed, where it says.
    pub remove_old_emoji: Option<bool>,
    /// Whether rules are generated, where it says.
    pub enable_rule_generator: Option<bool>,
    /// Whether generated rules replace those of the base, where it says.
    pub overwrite_original_rules: Option<bool>,
}

/// The program's settings that conversions take their defaults from.
#[derive(Debug, Clone)]
pub struct Settings {
    /// Whether rules are generated.
    pub enable_rule_gen: bool,
    /// Whether generated rules replace those of the base configuration.
    pub overwrite_original_rules: bool,
    /// The program that runs ShadowsocksR nodes for Surge.
    pub surge_ssr_path: String,
    /// The YAML style of Clash proxies (empty for the default).
    pub clash_proxies_style: String,
    /// The YAML style of Clash proxy groups (empty for the default).
    pub clash_proxy_groups_style: String,
    /// Seconds between updates of a managed configuration.
    pub update_interval: u32,
    /// Whether a managed configuration must be updated.
    pub update_strict: bool,
    /// Whether the nodes of `insert_urls` are added to every conversion.
    pub enable_insert: bool,
    /// Subscriptions whose nodes are added to every conversion.
    pub insert_urls: Vec<String>,
    /// Whether inserted nodes go before the others.
    pub prepend_insert: bool,
    /// Whether the proxy type is written before each remark.
    pub append_type: bool,
    /// TCP Fast Open, where set.
    pub tfo_flag: Option<bool>,
    /// UDP, where set.
    pub udp_flag: Option<bool>,
    /// Skipping the certificate check, where set.
    pub skip_cert_verify: Option<bool>,
    /// TLS 1.3, where set.
    pub tls13_flag: Option<bool>,
    /// Whether nodes are sorted.
    pub enable_sort: bool,
    /// The script that sorts nodes.
    pub sort_script: String,
    /// Whether deprecated nodes are left out.
    pub filter_deprecated: bool,
    /// Whether Clash configurations use the new field names.
    pub clash_use_new_field: bool,
    /// The address of this server for managed configurations.
    pub managed_config_prefix: String,
    /// Remark filters that nodes must match.
    pub include_remarks: Vec<String>,
    /// Remark filters that exclude nodes.
    pub exclude_remarks: Vec<String>,
    /// Whether emoji are added.
    pub add_emoji: bool,
    /// Whether old emoji are removed.
    pub remove_emoji: bool,
    /// The script that filters nodes.
    pub filter_script: String,
    /// The base configurations of the clients.
    pub rule_bases: crate::interfaces::subconverter::RuleBases,
}

impl Default for Settings {
    /// Settings with every option off, empty or unset, and a day between
    /// updates.
    fn default() -> (r: Self)
        ensures
            !r.enable_rule_gen && !r.overwrite_original_rules,
            r.surge_ssr_path@.len() == 0,
            r.clash_proxies_style@.len() == 0 && r.clash_proxy_groups_style@.len() == 0,
            r.update_interval == 86400 && !r.update_strict,
            !r.enable_insert && r.insert_urls@.len() == 0 && !r.prepend_insert,
            !r.append_type,
            r.tfo_flag is None && r.udp_flag is None && r.skip_cert_verify is None && r.tls13_flag is None,
            !r.enable_sort && r.sort_script@.len() == 0,
            !r.filter_deprecated && !r.clash_use_new_field,
            r.managed_config_prefix@.len() == 0,
            r.include_remarks@.len() == 0 && r.exclude_remarks@.len() == 0,
            !r.add_emoji && !r.remove_emoji,
            r.filter_script@.len() == 0,
            r.rule_bases.clash_rule_base@.len() == 0,
    {
        Settings {
            enable_rule_gen: false,
            overwrite_original_rules: false,
            surge_ssr_path: String::new(),
            clash_proxies_style: String::new(),
            clash_proxy_groups_style: String::new(),
            update_interval: 86400,
            update_strict: false,
            enable_insert: false,
            insert_urls: Vec::new(),
            prepend_insert: false,
            append_type: false,
            tfo_flag: None,
            udp_flag: None,
            skip_cert_verify: None,
            tls13_flag: None,
            enable_sort: false,
            sort_script: String::new(),
            filter_deprecated: false,
            clash_use_new_field: false,
            managed_config_prefix: String::new(),
            include_remarks: Vec::new(),
            exclude_remarks: Vec::new(),
            add_emoji: false,
            remove_emoji: false,
            filter_script: String::new(),
            rule_bases: crate::interfaces::subconverter::RuleBases {
                clash_rule_base: String::new(),
                surge_rule_base: String::new(),
                surfboard_rule_base: String::new(),
                mellow_rule_base: String::new(),
                quan_rule_base: String::new(),
                quanx_rule_base: String::new(),
                loon_rule_base: String::new(),
                sssub_rule_base: String::new(),
                singbox_rule_base: String::new(),
            },
        }
    }
}

} // verus!

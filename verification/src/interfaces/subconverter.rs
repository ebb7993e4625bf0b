//! Rule bases, conversion results, parsing options, and the direct rules
//! for the nodes' own servers.
use crate::generator::config::formats::loon::join;
use crate::generator::config::formats::single::ProxyUriTypes;
use crate::models::extra_settings::ExtraSettings;
use crate::models::proxy::Proxy;
use crate::models::proxy_group_config::ProxyGroupConfig;
use crate::models::regex_match_config::RegexMatchConfig;
use crate::models::ruleset::{RulesetConfig, RulesetContent, RulesetType};
use crate::models::subconverter_target::{external_base, target_of_name, SubconverterTarget};
use crate::settings::{ExternalSettings, Settings};
use crate::text::{
    chars_of, fold_lower, has_prefix, i64_decimal, int_decimal, nat_decimal, ov, push_all, push_str,
    split, split_char, starts_with_str, string_of, string_views, trim, trim_chars, u64_decimal,
};
use crate::utils::url::{is_link, link_text};
use crate::utils::network::{ipv4_chars, ipv4_text};
use vstd::prelude::*;

verus! {

/// Where the base configuration of each client comes from: a file path or
/// a URL, empty where there is none.
#[derive(Debug, Clone, Default)]
pub struct RuleBases {
    pub clash_rule_base: String,
    pub surge_rule_base: String,
    pub surfboard_rule_base: String,
    pub mellow_rule_base: String,
    pub quan_rule_base: String,
    pub quanx_rule_base: String,
    pub loon_rule_base: String,
    pub sssub_rule_base: String,
    pub singbox_rule_base: String,
}

/// The rule base that serves `target`, if any client of that kind has one.
pub open spec fn base_of_target(b: RuleBases, target: SubconverterTarget) -> Option<String> {
    match target {
        SubconverterTarget::Clash | SubconverterTarget::ClashR => Some(b.clash_rule_base),
        SubconverterTarget::Surge(_) => Some(b.surge_rule_base),
        SubconverterTarget::Surfboard => Some(b.surfboard_rule_base),
        SubconverterTarget::Mellow => Some(b.mellow_rule_base),
        SubconverterTarget::Quantumult => Some(b.quan_rule_base),
        SubconverterTarget::QuantumultX => Some(b.quanx_rule_base),
        SubconverterTarget::Loon => Some(b.loon_rule_base),
        SubconverterTarget::SSSub => Some(b.sssub_rule_base),
        SubconverterTarget::SingBox => Some(b.singbox_rule_base),
        _ => None,
    }
}

impl RuleBases {
    /// The path or URL of the rule base for `target`; `None` for the targets
    /// that have no base configuration (Clash and ClashR share one, as do all
    /// versions of Surge).
    pub fn base_path(&self, target: &SubconverterTarget) -> (r: Option<String>)
        ensures
            r == base_of_target(*self, *target),
    {
        match target {
            SubconverterTarget::Clash | SubconverterTarget::ClashR => Some(self.clash_rule_base.clone()),
            SubconverterTarget::Surge(_) => Some(self.surge_rule_base.clone()),
            SubconverterTarget::Surfboard => Some(self.surfboard_rule_base.clone()),
            SubconverterTarget::Mellow => Some(self.mellow_rule_base.clone()),
            SubconverterTarget::Quantumult => Some(self.quan_rule_base.clone()),
            SubconverterTarget::QuantumultX => Some(self.quanx_rule_base.clone()),
            SubconverterTarget::Loon => Some(self.loon_rule_base.clone()),
            SubconverterTarget::SSSub => Some(self.sssub_rule_base.clone()),
            SubconverterTarget::SingBox => Some(self.singbox_rule_base.clone()),
            _ => None,
        }
    }
}

/// What became of uploading the converted configuration.
#[derive(Debug, Clone)]
pub enum UploadStatus {
    /// No upload was attempted.
    NotAttempted,
    /// The upload succeeded; the URL of the uploaded file.
    Success(String),
    /// The upload failed; the error message.
    Failure(String),
}

/// The result of a conversion: the configuration text, the response
/// headers (each name once) and what became of the upload.
#[derive(Debug, Clone)]
pub struct SubconverterResult {
    pub content: String,
    pub headers: Vec<(String, String)>,
    pub upload_status: UploadStatus,
}

/// Options for parsing a subscription.
#[derive(Debug, Clone)]
pub struct ParseOptions {
    /// Remarks a node must match to be kept.
    pub include_remarks: Vec<String>,
    /// Remarks that drop a node.
    pub exclude_remarks: Vec<String>,
    /// Whether the request is authorized.
    pub authorized: bool,
}

impl Default for ParseOptions {
    fn default() -> (r: Self)
        ensures
            r.include_remarks@.len() == 0,
            r.exclude_remarks@.len() == 0,
            !r.authorized,
    {
        ParseOptions { include_remarks: Vec::new(), exclude_remarks: Vec::new(), authorized: false }
    }
}

/// The rule that sends traffic for a node's own server directly: an IPv6
/// or IPv4 range of that one address, without name resolution, or the
/// domain itself.
pub open spec fn direct_rule(host: Seq<char>, is_ipv6: bool) -> Seq<char> {
    if is_ipv6 {
        "IP-CIDR6,"@ + host + "/128,no-resolve"@
    } else if ipv4_text(host) {
        "IP-CIDR,"@ + host + "/32,no-resolve"@
    } else {
        "DOMAIN,"@ + host
    }
}

/// `r` is the ruleset that routes `rule` to `DIRECT`: a Surge ruleset with
/// no source.
pub open spec fn direct_ruleset(r: RulesetContent, rule: Seq<char>) -> bool {
    &&& r.group@ == "DIRECT"@
    &&& r.rule_path@ == Seq::<char>::empty()
    &&& r.rule_path_typed@ == Seq::<char>::empty()
    &&& r.rule_type == RulesetType::Surge
    &&& ov(r.rule_content) == Some(rule)
    &&& r.update_interval == 0
}

/// The direct rule for a host (see [`direct_rule`]).
fn direct_rule_exec(host: &String, is_ipv6: bool) -> (r: String)
    ensures
        r@ == direct_rule(host@, is_ipv6),
{
    let h = chars_of(host.as_str());
    let mut v: Vec<char> = Vec::new();
    if is_ipv6 {
        push_str(&mut v, "IP-CIDR6,");
        push_str(&mut v, host.as_str());
        push_str(&mut v, "/128,no-resolve");
    } else if ipv4_chars(h.as_slice()) {
        push_str(&mut v, "IP-CIDR,");
        push_str(&mut v, host.as_str());
        push_str(&mut v, "/32,no-resolve");
    } else {
        push_str(&mut v, "DOMAIN,");
        push_str(&mut v, host.as_str());
    }
    string_of(v.as_slice())
}

/// Puts in front of `ruleset_content` one ruleset per node that sends the
/// traffic for the node's own server directly (see [`direct_rule`]); each
/// new ruleset goes first, so the last node's comes first. Whether a host
/// is an IPv6 address is given, node by node, in `ipv6_hosts`.
pub fn prepend_proxy_direct_ruleset(
    ruleset_content: &mut Vec<RulesetContent>,
    nodes: &[Proxy],
    ipv6_hosts: &[bool],
)
    requires
        ipv6_hosts@.len() == nodes@.len(),
    ensures
        final(ruleset_content)@.len() == old(ruleset_content)@.len() + nodes@.len(),
        forall|i: int|
            0 <= i < nodes@.len() ==> #[trigger] direct_ruleset(
                final(ruleset_content)@[nodes@.len() - 1 - i],
                direct_rule(nodes@[i].hostname@, ipv6_hosts@[i]),
            ),
        forall|j: int|
            0 <= j < old(ruleset_content)@.len() ==> final(ruleset_content)@[nodes@.len() + j]
                == old(ruleset_content)@[j],
{
    let mut i: usize = 0;
    while i < nodes.len()
        invariant
            i <= nodes@.len(),
            ipv6_hosts@.len() == nodes@.len(),
            ruleset_content@.len() == old(ruleset_content)@.len() + i,
            forall|k: int|
                0 <= k < i ==> #[trigger] direct_ruleset(
                    ruleset_content@[i - 1 - k],
                    direct_rule(nodes@[k].hostname@, ipv6_hosts@[k]),
                ),
            forall|j: int|
                0 <= j < old(ruleset_content)@.len() ==> ruleset_content@[i + j] == old(
                    ruleset_content,
                )@[j],
        decreases nodes@.len() - i,
    {
        let rule = direct_rule_exec(&nodes[i].hostname, ipv6_hosts[i]);
        let mut ruleset = RulesetContent::new("", "DIRECT");
        proof {
            reveal_strlit("");
        }
        ruleset.rule_type = RulesetType::Surge;
        ruleset.set_rule_content(rule.as_str());
        let ghost before = ruleset_content@;
        let ghost oi = i as int;
        assert(ruleset.group@ == "DIRECT"@);
        assert(ruleset.rule_path@ == Seq::<char>::empty());
        assert(ruleset.rule_type == RulesetType::Surge);
        assert(ov(ruleset.rule_content) == Some(rule@));
        assert(rule@ == direct_rule(nodes@[oi].hostname@, ipv6_hosts@[oi]));
        assert(direct_ruleset(ruleset, direct_rule(nodes@[oi].hostname@, ipv6_hosts@[oi])));
        ruleset_content.insert(0, ruleset);
        assert(ruleset_content@ == seq![ruleset].add(before));
        i = i + 1;
        assert forall|k: int| 0 <= k < i implies #[trigger] direct_ruleset(
            ruleset_content@[i - 1 - k],
            direct_rule(nodes@[k].hostname@, ipv6_hosts@[k]),
        ) by {
            if k < oi {
                assert(direct_ruleset(before[oi - 1 - k], direct_rule(nodes@[k].hostname@, ipv6_hosts@[k])));
                assert(ruleset_content@[i - 1 - k] == before[oi - 1 - k]);
            } else {
                assert(ruleset_content@[i - 1 - k] == ruleset);
            }
        }
    }
}

/// Whether an external rule base at `path` is taken: a link always, a file
/// only under `base_path` and where it exists (`exists`).
pub open spec fn base_taken(path: Seq<char>, base_path: Seq<char>, exists: bool) -> bool {
    link_text(path) || (has_prefix(path, base_path) && exists)
}

/// What a rule base becomes once an external one at `path` was checked
/// against `base_path`, whatever the file system answered: the external
/// path where it was taken, which a link always is and a file only under
/// `base_path`; else the rule base as it was.
pub open spec fn base_checked(before: Seq<char>, after: Seq<char>, path: Seq<char>, base_path: Seq<char>) -> bool {
    ||| (after == path && (link_text(path) || has_prefix(path, base_path)))
    ||| (after == before && !link_text(path))
}

/// Takes the external rule base at `path` into `dest` where it is taken
/// (see [`base_taken`]); `path_exists` tells whether a file exists there.
pub fn check_external_base(path: &str, dest: &mut String, base_path: &str, path_exists: bool) -> (r: bool)
    ensures
        r == base_taken(path@, base_path@, path_exists),
        final(dest)@ == (if r {
            path@
        } else {
            old(dest)@
        }),
{
    let c = chars_of(path);
    if is_link(path) || (starts_with_str(c.as_slice(), base_path) && path_exists) {
        *dest = path.to_owned();
        true
    } else {
        false
    }
}

/// Checks a rule base against the file system through `file_exists`.
fn check_one<F: Fn(&str) -> bool>(path: &str, dest: &mut String, base_path: &str, file_exists: &F)
    requires
        forall|p: &str| #[trigger] file_exists.requires((p,)),
    ensures
        base_checked(old(dest)@, final(dest)@, path@, base_path@),
{
    let c = chars_of(path);
    let exists = if starts_with_str(c.as_slice(), base_path) {
        file_exists(path)
    } else {
        false
    };
    check_external_base(path, dest, base_path, exists);
}

impl RuleBases {
    /// Takes each rule base of an external configuration that is a link,
    /// or a file under `base_path` that `file_exists` finds; the others
    /// stay as they were.
    pub fn check_external_bases<F: Fn(&str) -> bool>(
        &mut self,
        ext_conf: &ExternalSettings,
        base_path: &str,
        file_exists: &F,
    )
        requires
            forall|p: &str| #[trigger] file_exists.requires((p,)),
        ensures
            base_checked(old(self).clash_rule_base@, final(self).clash_rule_base@, ext_conf.clash_rule_base@, base_path@),
            base_checked(old(self).surge_rule_base@, final(self).surge_rule_base@, ext_conf.surge_rule_base@, base_path@),
            base_checked(
                old(self).surfboard_rule_base@,
                final(self).surfboard_rule_base@,
                ext_conf.surfboard_rule_base@,
                base_path@,
            ),
            base_checked(old(self).mellow_rule_base@, final(self).mellow_rule_base@, ext_conf.mellow_rule_base@, base_path@),
            base_checked(old(self).quan_rule_base@, final(self).quan_rule_base@, ext_conf.quan_rule_base@, base_path@),
            base_checked(old(self).quanx_rule_base@, final(self).quanx_rule_base@, ext_conf.quanx_rule_base@, base_path@),
            base_checked(old(self).loon_rule_base@, final(self).loon_rule_base@, ext_conf.loon_rule_base@, base_path@),
            base_checked(old(self).sssub_rule_base@, final(self).sssub_rule_base@, ext_conf.sssub_rule_base@, base_path@),
            base_checked(
                old(self).singbox_rule_base@,
                final(self).singbox_rule_base@,
                ext_conf.singbox_rule_base@,
                base_path@,
            ),
    {
        check_one(ext_conf.clash_rule_base.as_str(), &mut self.clash_rule_base, base_path, file_exists);
        check_one(ext_conf.surge_rule_base.as_str(), &mut self.surge_rule_base, base_path, file_exists);
        check_one(ext_conf.surfboard_rule_base.as_str(), &mut self.surfboard_rule_base, base_path, file_exists);
        check_one(ext_conf.mellow_rule_base.as_str(), &mut self.mellow_rule_base, base_path, file_exists);
        check_one(ext_conf.quan_rule_base.as_str(), &mut self.quan_rule_base, base_path, file_exists);
        check_one(ext_conf.quanx_rule_base.as_str(), &mut self.quanx_rule_base, base_path, file_exists);
        check_one(ext_conf.loon_rule_base.as_str(), &mut self.loon_rule_base, base_path, file_exists);
        check_one(ext_conf.sssub_rule_base.as_str(), &mut self.sssub_rule_base, base_path, file_exists);
        check_one(ext_conf.singbox_rule_base.as_str(), &mut self.singbox_rule_base, base_path, file_exists);
    }
}

// ---------------------------------------------------------------------------
// Conversion configuration
// ---------------------------------------------------------------------------
/// What a conversion is asked to do.
#[derive(Debug, Clone)]
pub struct SubconverterConfig {
    pub target: SubconverterTarget,
    pub urls: Vec<String>,
    pub insert_urls: Vec<String>,
    pub prepend_insert: bool,
    pub group_name: Option<String>,
    pub ruleset_configs: Vec<RulesetConfig>,
    pub proxy_groups: Vec<ProxyGroupConfig>,
    pub include_remarks: Vec<String>,
    pub exclude_remarks: Vec<String>,
    pub extra: ExtraSettings,
    pub device_id: Option<String>,
    pub filename: Option<String>,
    pub update_interval: u32,
    pub filter_script: Option<String>,
    pub update_strict: bool,
    pub managed_config_prefix: String,
    pub upload_path: Option<String>,
    pub upload: bool,
    pub proxy: Option<String>,
    pub token: Option<String>,
    pub authorized: bool,
    pub sub_info: Option<String>,
    pub rule_bases: RuleBases,
    pub request_headers: Option<Vec<(String, String)>>,
}

/// The texts of a `|`-separated list, each trimmed.
pub open spec fn piped_list(s: Seq<char>) -> Seq<Seq<char>> {
    split_char(s, '|').map_values(|p: Seq<char>| trim(p))
}

/// The texts of a list that are not empty, in order.
pub open spec fn non_empty_texts(s: Seq<Seq<char>>) -> Seq<Seq<char>>
    decreases s.len(),
{
    if s.len() == 0 {
        Seq::empty()
    } else if s.last().len() == 0 {
        non_empty_texts(s.drop_last())
    } else {
        non_empty_texts(s.drop_last()).push(s.last())
    }
}

/// The texts of a `|`-separated list, each trimmed.
fn piped_list_exec(s: &str) -> (r: Vec<String>)
    ensures
        string_views(r@) == piped_list(s@),
{
    let c = chars_of(s);
    let parts = split(c.as_slice(), '|');
    let ghost pv = crate::text::views(parts@);
    let mut list: Vec<String> = Vec::new();
    let mut i: usize = 0;
    while i < parts.len()
        invariant
            i <= parts@.len(),
            pv == crate::text::views(parts@),
            pv == split_char(s@, '|'),
            string_views(list@) == pv.take(i as int).map_values(|p: Seq<char>| trim(p)),
        decreases parts@.len() - i,
    {
        let t = trim_chars(parts[i].as_slice());
        let ghost old_list = string_views(list@);
        list.push(string_of(t.as_slice()));
        assert(string_views(list@) =~= old_list.push(trim(pv[i as int])));
        assert(pv.take(i + 1).map_values(|p: Seq<char>| trim(p)) =~= pv.take(i as int).map_values(
            |p: Seq<char>| trim(p),
        ).push(trim(pv[i as int])));
        i = i + 1;
    }
    assert(pv.take(i as int) =~= pv);
    list
}

/// Builds a [`SubconverterConfig`] setting by setting; each setter changes
/// the one setting it names and hands the builder back.
#[derive(Debug)]
pub struct SubconverterConfigBuilder {
    config: SubconverterConfig,
}

impl SubconverterConfigBuilder {
    /// The configuration built so far.
    pub closed spec fn config_view(&self) -> SubconverterConfig {
        self.config
    }

    /// A builder with the defaults of a conversion under the program's
    /// settings: Clash, no URLs, groups, rulesets or remark filters, the
    /// extra settings the program's settings give, a day between updates,
    /// no upload, and nothing else set.
    pub fn new(global: &Settings) -> (r: Self)
        ensures
            r.config_view().target == SubconverterTarget::Clash,
            r.config_view().urls@.len() == 0,
            r.config_view().insert_urls@.len() == 0,
            !r.config_view().prepend_insert,
            r.config_view().group_name is None,
            r.config_view().ruleset_configs@.len() == 0,
            r.config_view().proxy_groups@.len() == 0,
            r.config_view().include_remarks@.len() == 0,
            r.config_view().exclude_remarks@.len() == 0,
            r.config_view().extra.enable_rule_generator == global.enable_rule_gen,
            r.config_view().extra.overwrite_original_rules == global.overwrite_original_rules,
            r.config_view().extra.surge_ssr_path@ == global.surge_ssr_path@,
            r.config_view().extra.clash_new_field_name,
            !r.config_view().extra.nodelist && !r.config_view().extra.authorized,
            r.config_view().device_id is None && r.config_view().filename is None,
            r.config_view().update_interval == 86400,
            r.config_view().filter_script is None,
            !r.config_view().update_strict,
            r.config_view().managed_config_prefix@.len() == 0,
            r.config_view().upload_path is None && !r.config_view().upload,
            r.config_view().proxy is None && r.config_view().token is None,
            !r.config_view().authorized,
            r.config_view().sub_info is None,
            r.config_view().rule_bases.clash_rule_base@.len() == 0,
            r.config_view().request_headers is None,
    {
        SubconverterConfigBuilder {
            config: SubconverterConfig {
                target: SubconverterTarget::Clash,
                urls: Vec::new(),
                insert_urls: Vec::new(),
                prepend_insert: false,
                group_name: None,
                ruleset_configs: Vec::new(),
                proxy_groups: Vec::new(),
                include_remarks: Vec::new(),
                exclude_remarks: Vec::new(),
                extra: ExtraSettings::from_settings(global),
                device_id: None,
                filename: None,
                update_interval: 86400,
                filter_script: None,
                update_strict: false,
                managed_config_prefix: String::new(),
                upload_path: None,
                upload: false,
                proxy: None,
                token: None,
                authorized: false,
                sub_info: None,
                rule_bases: RuleBases {
                    clash_rule_base: String::new(),
                    surge_rule_base: String::new(),
                    surfboard_rule_base: String::new(),
                    mellow_rule_base: String::new(),
                    quan_rule_base: String::new(),
                    quanx_rule_base: String::new(),
                    loon_rule_base: String::new(),
                    sssub_rule_base: String::new(),
                    singbox_rule_base: String::new(),
                },
                request_headers: None,
            },
        }
    }

    /// Set the target format.
    pub fn target(&mut self, target: SubconverterTarget) -> (r: &mut Self)
        ensures
            r.config_view() == (SubconverterConfig { target: target, ..old(self).config_view() }),
            *final(self) == *final(r),
    {
        self.config.target = target;
        self
    }

    /// Set the subscription URLs.
    pub fn urls(&mut self, urls: Vec<String>) -> (r: &mut Self)
        ensures
            r.config_view() == (SubconverterConfig { urls: urls, ..old(self).config_view() }),
            *final(self) == *final(r),
    {
        self.config.urls = urls;
        self
    }

    /// Set whether inserted nodes go first.
    pub fn prepend_insert(&mut self, prepend: bool) -> (r: &mut Self)
        ensures
            r.config_view() == (SubconverterConfig { prepend_insert: prepend, ..old(self).config_view() }),
            *final(self) == *final(r),
    {
        self.config.prepend_insert = prepend;
        self
    }

    /// Set the custom group name.
    pub fn group_name(&mut self, name: Option<String>) -> (r: &mut Self)
        ensures
            r.config_view() == (SubconverterConfig { group_name: name, ..old(self).config_view() }),
            *final(self) == *final(r),
    {
        self.config.group_name = name;
        self
    }

    /// Set the proxy groups.
    pub fn proxy_groups(&mut self, groups: Vec<ProxyGroupConfig>) -> (r: &mut Self)
        ensures
            r.config_view() == (SubconverterConfig { proxy_groups: groups, ..old(self).config_view() }),
            *final(self) == *final(r),
    {
        self.config.proxy_groups = groups;
        self
    }

    /// Set the rulesets.
    pub fn ruleset_configs(&mut self, configs: Vec<RulesetConfig>) -> (r: &mut Self)
        ensures
            r.config_view() == (SubconverterConfig { ruleset_configs: configs, ..old(self).config_view() }),
            *final(self) == *final(r),
    {
        self.config.ruleset_configs = configs;
        self
    }

    /// Set the remarks a node must match.
    pub fn include_remarks(&mut self, patterns: Vec<String>) -> (r: &mut Self)
        ensures
            r.config_view() == (SubconverterConfig { include_remarks: patterns, ..old(self).config_view() }),
            *final(self) == *final(r),
    {
        self.config.include_remarks = patterns;
        self
    }

    /// Set the remarks that drop a node.
    pub fn exclude_remarks(&mut self, patterns: Vec<String>) -> (r: &mut Self)
        ensures
            r.config_view() == (SubconverterConfig { exclude_remarks: patterns, ..old(self).config_view() }),
            *final(self) == *final(r),
    {
        self.config.exclude_remarks = patterns;
        self
    }

    /// Set all extra settings.
    pub fn extra(&mut self, extra: ExtraSettings) -> (r: &mut Self)
        ensures
            r.config_view() == (SubconverterConfig { extra: extra, ..old(self).config_view() }),
            *final(self) == *final(r),
    {
        self.config.extra = extra;
        self
    }

    /// Set the device id.
    pub fn device_id(&mut self, device_id: Option<String>) -> (r: &mut Self)
        ensures
            r.config_view() == (SubconverterConfig { device_id: device_id, ..old(self).config_view() }),
            *final(self) == *final(r),
    {
        self.config.device_id = device_id;
        self
    }

    /// Set the download file name.
    pub fn filename(&mut self, filename: Option<String>) -> (r: &mut Self)
        ensures
            r.config_view() == (SubconverterConfig { filename: filename, ..old(self).config_view() }),
            *final(self) == *final(r),
    {
        self.config.filename = filename;
        self
    }

    /// Set the update interval in seconds.
    pub fn update_interval(&mut self, interval: u32) -> (r: &mut Self)
        ensures
            r.config_view() == (SubconverterConfig { update_interval: interval, ..old(self).config_view() }),
            *final(self) == *final(r),
    {
        self.config.update_interval = interval;
        self
    }

    /// Set the filter script.
    pub fn filter_script(&mut self, script: Option<String>) -> (r: &mut Self)
        ensures
            r.config_view() == (SubconverterConfig { filter_script: script, ..old(self).config_view() }),
            *final(self) == *final(r),
    {
        self.config.filter_script = script;
        self
    }

    /// Set whether updates are strict.
    pub fn update_strict(&mut self, strict: bool) -> (r: &mut Self)
        ensures
            r.config_view() == (SubconverterConfig { update_strict: strict, ..old(self).config_view() }),
            *final(self) == *final(r),
    {
        self.config.update_strict = strict;
        self
    }

    /// Set the managed configuration prefix.
    pub fn managed_config_prefix(&mut self, prefix: String) -> (r: &mut Self)
        ensures
            r.config_view() == (SubconverterConfig { managed_config_prefix: prefix, ..old(self).config_view() }),
            *final(self) == *final(r),
    {
        self.config.managed_config_prefix = prefix;
        self
    }

    /// Set the upload path.
    pub fn upload_path(&mut self, path: Option<String>) -> (r: &mut Self)
        ensures
            r.config_view() == (SubconverterConfig { upload_path: path, ..old(self).config_view() }),
            *final(self) == *final(r),
    {
        self.config.upload_path = path;
        self
    }

    /// Set whether the result is uploaded.
    pub fn upload(&mut self, upload: bool) -> (r: &mut Self)
        ensures
            r.config_view() == (SubconverterConfig { upload: upload, ..old(self).config_view() }),
            *final(self) == *final(r),
    {
        self.config.upload = upload;
        self
    }

    /// Set the proxy for fetching subscriptions.
    pub fn proxy(&mut self, proxy: Option<String>) -> (r: &mut Self)
        ensures
            r.config_view() == (SubconverterConfig { proxy: proxy, ..old(self).config_view() }),
            *final(self) == *final(r),
    {
        self.config.proxy = proxy;
        self
    }

    /// Set the authentication token.
    pub fn token(&mut self, token: Option<String>) -> (r: &mut Self)
        ensures
            r.config_view() == (SubconverterConfig { token: token, ..old(self).config_view() }),
            *final(self) == *final(r),
    {
        self.config.token = token;
        self
    }

    /// Set whether the request is authorized.
    pub fn authorized(&mut self, authorized: bool) -> (r: &mut Self)
        ensures
            r.config_view() == (SubconverterConfig { authorized: authorized, ..old(self).config_view() }),
            *final(self) == *final(r),
    {
        self.config.authorized = authorized;
        self
    }

    /// Set the subscription information.
    pub fn sub_info(&mut self, sub_info: Option<String>) -> (r: &mut Self)
        ensures
            r.config_view() == (SubconverterConfig { sub_info: sub_info, ..old(self).config_view() }),
            *final(self) == *final(r),
    {
        self.config.sub_info = sub_info;
        self
    }

    /// Set all rule bases.
    pub fn rule_bases(&mut self, rule_bases: RuleBases) -> (r: &mut Self)
        ensures
            r.config_view() == (SubconverterConfig { rule_bases: rule_bases, ..old(self).config_view() }),
            *final(self) == *final(r),
    {
        self.config.rule_bases = rule_bases;
        self
    }

    /// Set the emoji rules.
    pub fn emoji_array(&mut self, patterns: Vec<RegexMatchConfig>) -> (r: &mut Self)
        ensures
            r.config_view() == (SubconverterConfig {
                extra: ExtraSettings { emoji_array: patterns, ..old(self).config_view().extra },
                ..old(self).config_view()
            }),
            *final(self) == *final(r),
    {
        self.config.extra.emoji_array = patterns;
        self
    }

    /// Set the rename rules.
    pub fn rename_array(&mut self, patterns: Vec<RegexMatchConfig>) -> (r: &mut Self)
        ensures
            r.config_view() == (SubconverterConfig {
                extra: ExtraSettings { rename_array: patterns, ..old(self).config_view().extra },
                ..old(self).config_view()
            }),
            *final(self) == *final(r),
    {
        self.config.extra.rename_array = patterns;
        self
    }

    /// Set whether emoji are added.
    pub fn add_emoji(&mut self, add: bool) -> (r: &mut Self)
        ensures
            r.config_view() == (SubconverterConfig {
                extra: ExtraSettings { add_emoji: add, ..old(self).config_view().extra },
                ..old(self).config_view()
            }),
            *final(self) == *final(r),
    {
        self.config.extra.add_emoji = add;
        self
    }

    /// Set whether emoji are removed.
    pub fn remove_emoji(&mut self, remove: bool) -> (r: &mut Self)
        ensures
            r.config_view() == (SubconverterConfig {
                extra: ExtraSettings { remove_emoji: remove, ..old(self).config_view().extra },
                ..old(self).config_view()
            }),
            *final(self) == *final(r),
    {
        self.config.extra.remove_emoji = remove;
        self
    }

    /// Set whether remarks get the protocol in front.
    pub fn append_proxy_type(&mut self, append: bool) -> (r: &mut Self)
        ensures
            r.config_view() == (SubconverterConfig {
                extra: ExtraSettings { append_proxy_type: append, ..old(self).config_view().extra },
                ..old(self).config_view()
            }),
            *final(self) == *final(r),
    {
        self.config.extra.append_proxy_type = append;
        self
    }

    /// Set the default of TCP Fast Open.
    pub fn tfo(&mut self, tfo: Option<bool>) -> (r: &mut Self)
        ensures
            r.config_view() == (SubconverterConfig {
                extra: ExtraSettings { tfo: tfo, ..old(self).config_view().extra },
                ..old(self).config_view()
            }),
            *final(self) == *final(r),
    {
        self.config.extra.tfo = tfo;
        self
    }

    /// Set the default of UDP relay.
    pub fn udp(&mut self, udp: Option<bool>) -> (r: &mut Self)
        ensures
            r.config_view() == (SubconverterConfig {
                extra: ExtraSettings { udp: udp, ..old(self).config_view().extra },
                ..old(self).config_view()
            }),
            *final(self) == *final(r),
    {
        self.config.extra.udp = udp;
        self
    }

    /// Set the default of skipping certificate checks.
    pub fn skip_cert_verify(&mut self, skip: Option<bool>) -> (r: &mut Self)
        ensures
            r.config_view() == (SubconverterConfig {
                extra: ExtraSettings { skip_cert_verify: skip, ..old(self).config_view().extra },
                ..old(self).config_view()
            }),
            *final(self) == *final(r),
    {
        self.config.extra.skip_cert_verify = skip;
        self
    }

    /// Set the default of TLS 1.3.
    pub fn tls13(&mut self, tls13: Option<bool>) -> (r: &mut Self)
        ensures
            r.config_view() == (SubconverterConfig {
                extra: ExtraSettings { tls13: tls13, ..old(self).config_view().extra },
                ..old(self).config_view()
            }),
            *final(self) == *final(r),
    {
        self.config.extra.tls13 = tls13;
        self
    }

    /// Set whether nodes are sorted.
    pub fn sort(&mut self, sort: bool) -> (r: &mut Self)
        ensures
            r.config_view() == (SubconverterConfig {
                extra: ExtraSettings { sort_flag: sort, ..old(self).config_view().extra },
                ..old(self).config_view()
            }),
            *final(self) == *final(r),
    {
        self.config.extra.sort_flag = sort;
        self
    }

    /// Set the sort script.
    pub fn sort_script(&mut self, script: String) -> (r: &mut Self)
        ensures
            r.config_view() == (SubconverterConfig {
                extra: ExtraSettings { sort_script: script, ..old(self).config_view().extra },
                ..old(self).config_view()
            }),
            *final(self) == *final(r),
    {
        self.config.extra.sort_script = script;
        self
    }

    /// Set whether deprecated nodes are dropped.
    pub fn filter_deprecated(&mut self, filter: bool) -> (r: &mut Self)
        ensures
            r.config_view() == (SubconverterConfig {
                extra: ExtraSettings { filter_deprecated: filter, ..old(self).config_view().extra },
                ..old(self).config_view()
            }),
            *final(self) == *final(r),
    {
        self.config.extra.filter_deprecated = filter;
        self
    }

    /// Set whether Clash gets its new field names.
    pub fn clash_new_field_name(&mut self, new_field: bool) -> (r: &mut Self)
        ensures
            r.config_view() == (SubconverterConfig {
                extra: ExtraSettings { clash_new_field_name: new_field, ..old(self).config_view().extra },
                ..old(self).config_view()
            }),
            *final(self) == *final(r),
    {
        self.config.extra.clash_new_field_name = new_field;
        self
    }

    /// Set whether Clash rules use a script.
    pub fn clash_script(&mut self, enable: bool) -> (r: &mut Self)
        ensures
            r.config_view() == (SubconverterConfig {
                extra: ExtraSettings { clash_script: enable, ..old(self).config_view().extra },
                ..old(self).config_view()
            }),
            *final(self) == *final(r),
    {
        self.config.extra.clash_script = enable;
        self
    }

    /// Set whether Clash gets classical rulesets.
    pub fn clash_classical_ruleset(&mut self, enable: bool) -> (r: &mut Self)
        ensures
            r.config_view() == (SubconverterConfig {
                extra: ExtraSettings { clash_classical_ruleset: enable, ..old(self).config_view().extra },
                ..old(self).config_view()
            }),
            *final(self) == *final(r),
    {
        self.config.extra.clash_classical_ruleset = enable;
        self
    }

    /// Set whether only a node list is made.
    pub fn nodelist(&mut self, nodelist: bool) -> (r: &mut Self)
        ensures
            r.config_view() == (SubconverterConfig {
                extra: ExtraSettings { nodelist: nodelist, ..old(self).config_view().extra },
                ..old(self).config_view()
            }),
            *final(self) == *final(r),
    {
        self.config.extra.nodelist = nodelist;
        self
    }

    /// Set whether rules are generated.
    pub fn enable_rule_generator(&mut self, enable: bool) -> (r: &mut Self)
        ensures
            r.config_view() == (SubconverterConfig {
                extra: ExtraSettings { enable_rule_generator: enable, ..old(self).config_view().extra },
                ..old(self).config_view()
            }),
            *final(self) == *final(r),
    {
        self.config.extra.enable_rule_generator = enable;
        self
    }

    /// Set whether generated rules replace the base ones.
    pub fn overwrite_original_rules(&mut self, overwrite: bool) -> (r: &mut Self)
        ensures
            r.config_view() == (SubconverterConfig {
                extra: ExtraSettings { overwrite_original_rules: overwrite, ..old(self).config_view().extra },
                ..old(self).config_view()
            }),
            *final(self) == *final(r),
    {
        self.config.extra.overwrite_original_rules = overwrite;
        self
    }

    /// Set the rule base of the clash clients.
    pub fn clash_rule_base(&mut self, path: &str) -> (r: &mut Self)
        ensures
            r.config_view().rule_bases.clash_rule_base@ == path@,
            r.config_view() == (SubconverterConfig {
                rule_bases: RuleBases { clash_rule_base: r.config_view().rule_bases.clash_rule_base, ..old(self).config_view().rule_bases },
                ..old(self).config_view()
            }),
            *final(self) == *final(r),
    {
        self.config.rule_bases.clash_rule_base = path.to_owned();
        self
    }

    /// Set the rule base of the surge clients.
    pub fn surge_rule_base(&mut self, path: &str) -> (r: &mut Self)
        ensures
            r.config_view().rule_bases.surge_rule_base@ == path@,
            r.config_view() == (SubconverterConfig {
                rule_bases: RuleBases { surge_rule_base: r.config_view().rule_bases.surge_rule_base, ..old(self).config_view().rule_bases },
                ..old(self).config_view()
            }),
            *final(self) == *final(r),
    {
        self.config.rule_bases.surge_rule_base = path.to_owned();
        self
    }

    /// Set the rule base of the surfboard clients.
    pub fn surfboard_rule_base(&mut self, path: &str) -> (r: &mut Self)
        ensures
            r.config_view().rule_bases.surfboard_rule_base@ == path@,
            r.config_view() == (SubconverterConfig {
                rule_bases: RuleBases { surfboard_rule_base: r.config_view().rule_bases.surfboard_rule_base, ..old(self).config_view().rule_bases },
                ..old(self).config_view()
            }),
            *final(self) == *final(r),
    {
        self.config.rule_bases.surfboard_rule_base = path.to_owned();
        self
    }

    /// Set the rule base of the mellow clients.
    pub fn mellow_rule_base(&mut self, path: &str) -> (r: &mut Self)
        ensures
            r.config_view().rule_bases.mellow_rule_base@ == path@,
            r.config_view() == (SubconverterConfig {
                rule_bases: RuleBases { mellow_rule_base: r.config_view().rule_bases.mellow_rule_base, ..old(self).config_view().rule_bases },
                ..old(self).config_view()
            }),
            *final(self) == *final(r),
    {
        self.config.rule_bases.mellow_rule_base = path.to_owned();
        self
    }

    /// Set the rule base of the quan clients.
    pub fn quan_rule_base(&mut self, path: &str) -> (r: &mut Self)
        ensures
            r.config_view().rule_bases.quan_rule_base@ == path@,
            r.config_view() == (SubconverterConfig {
                rule_bases: RuleBases { quan_rule_base: r.config_view().rule_bases.quan_rule_base, ..old(self).config_view().rule_bases },
                ..old(self).config_view()
            }),
            *final(self) == *final(r),
    {
        self.config.rule_bases.quan_rule_base = path.to_owned();
        self
    }

    /// Set the rule base of the quanx clients.
    pub fn quanx_rule_base(&mut self, path: &str) -> (r: &mut Self)
        ensures
            r.config_view().rule_bases.quanx_rule_base@ == path@,
            r.config_view() == (SubconverterConfig {
                rule_bases: RuleBases { quanx_rule_base: r.config_view().rule_bases.quanx_rule_base, ..old(self).config_view().rule_bases },
                ..old(self).config_view()
            }),
            *final(self) == *final(r),
    {
        self.config.rule_bases.quanx_rule_base = path.to_owned();
        self
    }

    /// Set the rule base of the loon clients.
    pub fn loon_rule_base(&mut self, path: &str) -> (r: &mut Self)
        ensures
            r.config_view().rule_bases.loon_rule_base@ == path@,
            r.config_view() == (SubconverterConfig {
                rule_bases: RuleBases { loon_rule_base: r.config_view().rule_bases.loon_rule_base, ..old(self).config_view().rule_bases },
                ..old(self).config_view()
            }),
            *final(self) == *final(r),
    {
        self.config.rule_bases.loon_rule_base = path.to_owned();
        self
    }

    /// Set the rule base of the sssub clients.
    pub fn sssub_rule_base(&mut self, path: &str) -> (r: &mut Self)
        ensures
            r.config_view().rule_bases.sssub_rule_base@ == path@,
            r.config_view() == (SubconverterConfig {
                rule_bases: RuleBases { sssub_rule_base: r.config_view().rule_bases.sssub_rule_base, ..old(self).config_view().rule_bases },
                ..old(self).config_view()
            }),
            *final(self) == *final(r),
    {
        self.config.rule_bases.sssub_rule_base = path.to_owned();
        self
    }

    /// Set the rule base of the singbox clients.
    pub fn singbox_rule_base(&mut self, path: &str) -> (r: &mut Self)
        ensures
            r.config_view().rule_bases.singbox_rule_base@ == path@,
            r.config_view() == (SubconverterConfig {
                rule_bases: RuleBases { singbox_rule_base: r.config_view().rule_bases.singbox_rule_base, ..old(self).config_view().rule_bases },
                ..old(self).config_view()
            }),
            *final(self) == *final(r),
    {
        self.config.rule_bases.singbox_rule_base = path.to_owned();
        self
    }

    /// Set the target from its name (any case); an unknown name leaves it.
    pub fn target_from_str(&mut self, target: &str) -> (r: &mut Self)
        ensures
            r.config_view() == (match target_of_name(fold_lower(target@)) {
                Some(t) => SubconverterConfig { target: t, ..old(self).config_view() },
                None => old(self).config_view(),
            }),
            *final(self) == *final(r),
    {
        if let Some(t) = SubconverterTarget::from_str(target) {
            self.config.target = t;
        }
        self
    }

    /// Set the Surge version where the target is Surge.
    pub fn surge_version(&mut self, version: i32) -> (r: &mut Self)
        ensures
            r.config_view() == (match old(self).config_view().target {
                SubconverterTarget::Surge(_) => SubconverterConfig {
                    target: SubconverterTarget::Surge(version),
                    ..old(self).config_view()
                },
                _ => old(self).config_view(),
            }),
            *final(self) == *final(r),
    {
        if let SubconverterTarget::Surge(_) = self.config.target {
            self.config.target = SubconverterTarget::Surge(version);
        }
        self
    }

    /// Add a subscription URL.
    pub fn add_url(&mut self, url: &str) -> (r: &mut Self)
        ensures
            string_views(r.config_view().urls@) == string_views(old(self).config_view().urls@).push(url@),
            r.config_view() == (SubconverterConfig { urls: r.config_view().urls, ..old(self).config_view() }),
            *final(self) == *final(r),
    {
        let ghost before = string_views(self.config.urls@);
        self.config.urls.push(url.to_owned());
        assert(string_views(self.config.urls@) =~= before.push(url@));
        self
    }

    /// Set the subscription URLs from a `|`-separated list, each trimmed.
    pub fn urls_from_str(&mut self, urls: &str) -> (r: &mut Self)
        ensures
            string_views(r.config_view().urls@) == piped_list(urls@),
            r.config_view() == (SubconverterConfig { urls: r.config_view().urls, ..old(self).config_view() }),
            *final(self) == *final(r),
    {
        self.config.urls = piped_list_exec(urls);
        self
    }

    /// Add a URL whose nodes are inserted, unless it is empty.
    pub fn add_insert_url(&mut self, url: &str) -> (r: &mut Self)
        ensures
            string_views(r.config_view().insert_urls@) == if url@.len() > 0 {
                string_views(old(self).config_view().insert_urls@).push(url@)
            } else {
                string_views(old(self).config_view().insert_urls@)
            },
            r.config_view() == (SubconverterConfig {
                insert_urls: r.config_view().insert_urls,
                ..old(self).config_view()
            }),
            *final(self) == *final(r),
    {
        if !url.is_empty() {
            let ghost before = string_views(self.config.insert_urls@);
            self.config.insert_urls.push(url.to_owned());
            assert(string_views(self.config.insert_urls@) =~= before.push(url@));
        }
        self
    }

    /// Set the URLs whose nodes are inserted, leaving out empty ones.
    pub fn insert_urls(&mut self, urls: Vec<String>) -> (r: &mut Self)
        ensures
            string_views(r.config_view().insert_urls@) == non_empty_texts(string_views(urls@)),
            r.config_view() == (SubconverterConfig {
                insert_urls: r.config_view().insert_urls,
                ..old(self).config_view()
            }),
            *final(self) == *final(r),
    {
        let ghost uv = string_views(urls@);
        let mut kept: Vec<String> = Vec::new();
        let mut i: usize = 0;
        assert(uv.take(0) =~= Seq::<Seq<char>>::empty());
        while i < urls.len()
            invariant
                i <= urls@.len(),
                uv == string_views(urls@),
                string_views(kept@) == non_empty_texts(uv.take(i as int)),
            decreases urls@.len() - i,
        {
            assert(uv.take(i + 1).drop_last() =~= uv.take(i as int));
            assert(uv.take(i + 1).last() == urls@[i as int]@);
            if !urls[i].as_str().is_empty() {
                let ghost before = string_views(kept@);
                kept.push(urls[i].clone());
                assert(string_views(kept@) =~= before.push(urls@[i as int]@));
            }
            i = i + 1;
        }
        assert(uv.take(i as int) =~= uv);
        self.config.insert_urls = kept;
        self
    }

    /// Set the URLs whose nodes are inserted from a `|`-separated list,
    /// each trimmed.
    pub fn insert_urls_from_str(&mut self, urls: &str) -> (r: &mut Self)
        ensures
            string_views(r.config_view().insert_urls@) == piped_list(urls@),
            r.config_view() == (SubconverterConfig {
                insert_urls: r.config_view().insert_urls,
                ..old(self).config_view()
            }),
            *final(self) == *final(r),
    {
        self.config.insert_urls = piped_list_exec(urls);
        self
    }

    /// Add a remark a node must match.
    pub fn add_include_remark(&mut self, pattern: &str) -> (r: &mut Self)
        ensures
            string_views(r.config_view().include_remarks@) == string_views(
                old(self).config_view().include_remarks@,
            ).push(pattern@),
            r.config_view() == (SubconverterConfig {
                include_remarks: r.config_view().include_remarks,
                ..old(self).config_view()
            }),
            *final(self) == *final(r),
    {
        let ghost before = string_views(self.config.include_remarks@);
        self.config.include_remarks.push(pattern.to_owned());
        assert(string_views(self.config.include_remarks@) =~= before.push(pattern@));
        self
    }

    /// Add a remark that drops a node.
    pub fn add_exclude_remark(&mut self, pattern: &str) -> (r: &mut Self)
        ensures
            string_views(r.config_view().exclude_remarks@) == string_views(
                old(self).config_view().exclude_remarks@,
            ).push(pattern@),
            r.config_view() == (SubconverterConfig {
                exclude_remarks: r.config_view().exclude_remarks,
                ..old(self).config_view()
            }),
            *final(self) == *final(r),
    {
        let ghost before = string_views(self.config.exclude_remarks@);
        self.config.exclude_remarks.push(pattern.to_owned());
        assert(string_views(self.config.exclude_remarks@) =~= before.push(pattern@));
        self
    }

    /// Set the request headers.
    pub fn request_headers(&mut self, headers: Vec<(String, String)>) -> (r: &mut Self)
        ensures
            r.config_view() == (SubconverterConfig { request_headers: Some(headers), ..old(self).config_view() }),
            *final(self) == *final(r),
    {
        self.config.request_headers = Some(headers);
        self
    }

    /// The configuration, where it has subscription or inserted URLs; an
    /// error where it has neither.
    pub fn build(self) -> (r: Result<SubconverterConfig, String>)
        ensures
            match r {
                Ok(c) => c == self.config_view() && (self.config_view().urls@.len() > 0
                    || self.config_view().insert_urls@.len() > 0),
                Err(e) => e@ == "No URLs provided"@ && self.config_view().urls@.len() == 0
                    && self.config_view().insert_urls@.len() == 0,
            },
    {
        let config = self.config;
        if config.urls.len() == 0 && config.insert_urls.len() == 0 {
            return Err("No URLs provided".to_owned());
        }
        Ok(config)
    }
}

// ---------------------------------------------------------------------------
// Steps of a conversion
// ---------------------------------------------------------------------------
/// The options for parsing the subscriptions of a conversion: its remark
/// filters and whether it is authorized.
pub fn parse_options(config: &SubconverterConfig) -> (r: ParseOptions)
    ensures
        string_views(r.include_remarks@) == string_views(config.include_remarks@),
        string_views(r.exclude_remarks@) == string_views(config.exclude_remarks@),
        r.authorized == config.authorized,
{
    ParseOptions {
        include_remarks: crate::text::clone_strings(&config.include_remarks),
        exclude_remarks: crate::text::clone_strings(&config.exclude_remarks),
        authorized: config.authorized,
    }
}

/// The nodes of a conversion: the inserted nodes before or after those of
/// the subscriptions; an error where there are none at all.
pub fn merge_nodes(nodes: Vec<Proxy>, insert_nodes: Vec<Proxy>, prepend_insert: bool) -> (r: Result<
    Vec<Proxy>,
    String,
>)
    ensures
        match r {
            Ok(all) => (nodes@.len() > 0 || insert_nodes@.len() > 0) && all@ == (if prepend_insert {
                insert_nodes@ + nodes@
            } else {
                nodes@ + insert_nodes@
            }),
            Err(e) => e@ == "No nodes were found!"@ && nodes@.len() == 0 && insert_nodes@.len() == 0,
        },
{
    if nodes.len() == 0 && insert_nodes.len() == 0 {
        return Err("No nodes were found!".to_owned());
    }
    let (mut first, mut second) = if prepend_insert {
        (insert_nodes, nodes)
    } else {
        (nodes, insert_nodes)
    };
    first.append(&mut second);
    Ok(first)
}

/// `a` is `b` with another group name.
pub open spec fn regrouped(a: Proxy, b: Proxy, group: Seq<char>) -> bool {
    a.group@ == group && a == (Proxy { group: a.group, ..b })
}

/// Gives every node the group name, where one is set; nothing else of a
/// node changes.
pub fn apply_group_name(nodes: &mut Vec<Proxy>, group_name: &Option<String>)
    ensures
        final(nodes)@.len() == old(nodes)@.len(),
        forall|i: int|
            0 <= i < old(nodes)@.len() ==> (match group_name {
                Some(g) => regrouped(#[trigger] final(nodes)@[i], old(nodes)@[i], g@),
                None => final(nodes)@[i] == old(nodes)@[i],
            }),
{
    match group_name {
        None => {},
        Some(g) => {
            let ghost start = nodes@;
            let mut i: usize = 0;
            while i < nodes.len()
                invariant
                    i <= nodes@.len(),
                    nodes@.len() == start.len(),
                    start == old(nodes)@,
                    forall|k: int| 0 <= k < i ==> regrouped(#[trigger] nodes@[k], start[k], g@),
                    forall|k: int| i <= k < nodes@.len() ==> nodes@[k] == start[k],
                decreases nodes@.len() - i,
            {
                let ghost before = nodes@;
                let mut n = Proxy::default();
                nodes.set_and_swap(i, &mut n);
                n.group = g.clone();
                nodes.set_and_swap(i, &mut n);
                assert(regrouped(nodes@[i as int], start[i as int], g@));
                assert forall|k: int| 0 <= k < i implies regrouped(#[trigger] nodes@[k], start[k], g@) by {
                    assert(nodes@[k] == before[k]);
                }
                i = i + 1;
            }
        },
    }
}

/// The kinds of single link a target asks for; `None` for the targets that
/// are not lists of links.
pub open spec fn link_types_of(t: SubconverterTarget) -> Option<ProxyUriTypes> {
    match t {
        SubconverterTarget::SS => Some(ProxyUriTypes { ss: true, ssr: false, vmess: false, trojan: false }),
        SubconverterTarget::SSR => Some(ProxyUriTypes { ss: true, ssr: true, vmess: false, trojan: false }),
        SubconverterTarget::V2Ray => Some(ProxyUriTypes { ss: false, ssr: false, vmess: true, trojan: false }),
        SubconverterTarget::Trojan => Some(ProxyUriTypes { ss: false, ssr: false, vmess: false, trojan: true }),
        SubconverterTarget::Mixed => Some(ProxyUriTypes { ss: true, ssr: true, vmess: true, trojan: true }),
        _ => None,
    }
}

/// The kinds of single link a target asks for (see [`link_types_of`]).
pub fn link_types(target: &SubconverterTarget) -> (r: Option<ProxyUriTypes>)
    ensures
        r == link_types_of(*target),
{
    match target {
        SubconverterTarget::SS => Some(ProxyUriTypes { ss: true, ssr: false, vmess: false, trojan: false }),
        SubconverterTarget::SSR => Some(ProxyUriTypes { ss: true, ssr: true, vmess: false, trojan: false }),
        SubconverterTarget::V2Ray => Some(ProxyUriTypes { ss: false, ssr: false, vmess: true, trojan: false }),
        SubconverterTarget::Trojan => Some(ProxyUriTypes { ss: false, ssr: false, vmess: false, trojan: true }),
        SubconverterTarget::Mixed => Some(ProxyUriTypes { ss: true, ssr: true, vmess: true, trojan: true }),
        _ => None,
    }
}

/// The address from which Surge or Surfboard fetches an updated
/// configuration; `None` for other targets.
pub open spec fn managed_url(prefix: Seq<char>, t: SubconverterTarget, urls: Seq<Seq<char>>) -> Option<Seq<char>> {
    match t {
        SubconverterTarget::Surge(v) => Some(
            prefix + "sub?target=surge&ver="@ + int_decimal(v as int) + "&url="@ + join(urls, "|"@),
        ),
        SubconverterTarget::Surfboard => Some(prefix + "sub?target=surfboard&url="@ + join(urls, "|"@)),
        _ => None,
    }
}

/// The output of a conversion with the header that lets Surge and
/// Surfboard keep it updated: where the conversion has a managed prefix
/// and generates rules, `#!MANAGED-CONFIG`, the address, the update
/// interval and strictness, and a blank line before the output.
pub open spec fn managed_output(c: SubconverterConfig, output: Seq<char>) -> Seq<char> {
    match managed_url(c.managed_config_prefix@, c.target, string_views(c.urls@)) {
        Some(url) => if c.managed_config_prefix@.len() > 0 && c.extra.enable_rule_generator {
            "#!MANAGED-CONFIG "@ + url + " interval="@ + nat_decimal(c.update_interval as nat) + " strict="@
                + (if c.update_strict {
                "true"@
            } else {
                "false"@
            }) + "\n\n"@ + output
        } else {
            output
        },
        None => output,
    }
}

/// The output of a conversion with its update header where it has one (see
/// [`managed_output`]).
pub fn with_managed_header(config: &SubconverterConfig, output: String) -> (r: String)
    ensures
        r@ == managed_output(*config, output@),
{
    let prefix = config.managed_config_prefix.as_str();
    if prefix.is_empty() || !config.extra.enable_rule_generator {
        return output;
    }
    let mut url = chars_of(prefix);
    match config.target {
        SubconverterTarget::Surge(v) => {
            push_str(&mut url, "sub?target=surge&ver=");
            let d = i64_decimal(v as i64);
            push_all(&mut url, d.as_slice());
            push_str(&mut url, "&url=");
        },
        SubconverterTarget::Surfboard => {
            push_str(&mut url, "sub?target=surfboard&url=");
        },
        _ => {
            return output;
        },
    }
    crate::generator::config::formats::surge::push_joined_by(&mut url, &config.urls, "|");
    let mut v = chars_of("#!MANAGED-CONFIG ");
    push_all(&mut v, url.as_slice());
    push_str(&mut v, " interval=");
    let d = u64_decimal(config.update_interval as u64);
    push_all(&mut v, d.as_slice());
    push_str(&mut v, " strict=");
    push_str(&mut v, if config.update_strict { "true" } else { "false" });
    push_str(&mut v, "\n\n");
    push_str(&mut v, output.as_str());
    let r = string_of(v.as_slice());
    assert(r@ =~= managed_output(*config, output@));
    r
}

/// The response headers of a conversion: the subscription's user
/// information where known, and the file name to save it under where set.
pub open spec fn conversion_headers(c: SubconverterConfig) -> Seq<(Seq<char>, Seq<char>)> {
    (match c.sub_info {
        Some(i) => seq![("Subscription-UserInfo"@, i@)],
        None => Seq::empty(),
    }) + match c.filename {
        Some(f) => seq![("Content-Disposition"@, "attachment; filename=\""@ + f@ + "\"; filename*=utf-8''"@)],
        None => Seq::empty(),
    }
}

/// The response headers of a conversion (see [`conversion_headers`]).
pub fn response_headers(config: &SubconverterConfig) -> (r: Vec<(String, String)>)
    ensures
        crate::text::pair_views(r@) == conversion_headers(*config),
{
    let mut h: Vec<(String, String)> = Vec::new();
    match &config.sub_info {
        Some(i) => {
            h.push(("Subscription-UserInfo".to_owned(), i.clone()));
        },
        None => {},
    }
    let ghost h0 = crate::text::pair_views(h@);
    match &config.filename {
        Some(f) => {
            let mut v = chars_of("attachment; filename=\"");
            push_str(&mut v, f.as_str());
            push_str(&mut v, "\"; filename*=utf-8''");
            h.push(("Content-Disposition".to_owned(), string_of(v.as_slice())));
            assert(crate::text::pair_views(h@) =~= h0.push(
                ("Content-Disposition"@, "attachment; filename=\""@ + f@ + "\"; filename*=utf-8''"@),
            ));
        },
        None => {},
    }
    assert(crate::text::pair_views(h@) =~= conversion_headers(*config));
    h
}

/// The name under which a conversion's output is uploaded, and whether the
/// upload writes the update address into it.
pub open spec fn upload_name_of(t: SubconverterTarget, nodelist: bool) -> (Seq<char>, bool) {
    match t {
        SubconverterTarget::Clash => ("clash"@, false),
        SubconverterTarget::ClashR => ("clashr"@, false),
        SubconverterTarget::Surge(v) => (
            "surge"@ + int_decimal(v as int) + if nodelist {
                "list"@
            } else {
                Seq::empty()
            },
            true,
        ),
        SubconverterTarget::Surfboard => ("surfboard"@, !nodelist),
        SubconverterTarget::Mellow => ("mellow"@, !nodelist),
        SubconverterTarget::SSSub => ("sssub"@, false),
        SubconverterTarget::SS => ("ss"@, false),
        SubconverterTarget::SSR => ("ssr"@, false),
        SubconverterTarget::V2Ray => ("v2ray"@, false),
        SubconverterTarget::Trojan => ("trojan"@, false),
        SubconverterTarget::Mixed => ("sub"@, false),
        SubconverterTarget::Quantumult => ("quan"@, false),
        SubconverterTarget::QuantumultX => ("quanx"@, false),
        SubconverterTarget::Loon => ("loon"@, false),
        SubconverterTarget::SSD => ("ssd"@, false),
        SubconverterTarget::SingBox => ("singbox"@, false),
        SubconverterTarget::Auto => ("clash"@, false),
    }
}

/// The name, path and address flag of a conversion's upload: the name from
/// its target (see [`upload_name_of`]), the path its file name where set,
/// else the name.
pub fn upload_target(config: &SubconverterConfig) -> (r: (String, String, bool))
    ensures
        r.0@ == upload_name_of(config.target, config.extra.nodelist).0,
        r.2 == upload_name_of(config.target, config.extra.nodelist).1,
        r.1@ == (match config.filename {
            Some(f) => f@,
            None => r.0@,
        }),
{
    let nodelist = config.extra.nodelist;
    let (name, manage): (String, bool) = match config.target {
        SubconverterTarget::Clash => ("clash".to_owned(), false),
        SubconverterTarget::ClashR => ("clashr".to_owned(), false),
        SubconverterTarget::Surge(v) => {
            let mut n = chars_of("surge");
            let d = i64_decimal(v as i64);
            push_all(&mut n, d.as_slice());
            if nodelist {
                push_str(&mut n, "list");
            }
            let s = string_of(n.as_slice());
            assert(s@ =~= upload_name_of(config.target, nodelist).0);
            (s, true)
        },
        SubconverterTarget::Surfboard => ("surfboard".to_owned(), !nodelist),
        SubconverterTarget::Mellow => ("mellow".to_owned(), !nodelist),
        SubconverterTarget::SSSub => ("sssub".to_owned(), false),
        SubconverterTarget::SS => ("ss".to_owned(), false),
        SubconverterTarget::SSR => ("ssr".to_owned(), false),
        SubconverterTarget::V2Ray => ("v2ray".to_owned(), false),
        SubconverterTarget::Trojan => ("trojan".to_owned(), false),
        SubconverterTarget::Mixed => ("sub".to_owned(), false),
        SubconverterTarget::Quantumult => ("quan".to_owned(), false),
        SubconverterTarget::QuantumultX => ("quanx".to_owned(), false),
        SubconverterTarget::Loon => ("loon".to_owned(), false),
        SubconverterTarget::SSD => ("ssd".to_owned(), false),
        SubconverterTarget::SingBox => ("singbox".to_owned(), false),
        SubconverterTarget::Auto => ("clash".to_owned(), false),
    };
    let path = match &config.filename {
        Some(f) => f.clone(),
        None => name.clone(),
    };
    (name, path, manage)
}

/// An external configuration can give a rule base only to a target that
/// has one: both choose the base by the same kinds of client.
pub proof fn law_external_base_needs_rule_base(b: RuleBases, e: ExternalSettings, t: SubconverterTarget)
    ensures
        external_base(t, &e) is Some ==> base_of_target(b, t) is Some,
{
}

} // verus!

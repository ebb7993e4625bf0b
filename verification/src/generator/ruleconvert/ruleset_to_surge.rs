//! Rules of fetched rulesets as lines of Surge-like configurations
//! (Surge, Surfboard, Quantumult, Quantumult X and Mellow).
use super::common::{rule_to_common, transform_rule_to_common};
use super::convert_ruleset::{
    before_sub, before_sub_exec, convert_ruleset, converted_ruleset, entries_unquotable,
    payload_header,
};
use crate::generator::config::formats::mellow::b64_text;
use crate::models::ruleset::{content_text, RulesetContent, RulesetType};
use crate::utils::base64::url_safe_base64_encode;
use crate::utils::url::{is_link, link_text};
use crate::text::{
    nat_decimal, string_views, u64_decimal, chars_of, contains_seq, contains_str, eq_str, has_prefix, push_all, push_str, replace_all,
    replace_str, slice_chars, split, split_char, starts_with_str, string_of, trim, trim_chars,
    views,
};
use vstd::prelude::*;

verus! {

// ---------------------------------------------------------------------------
// Rule types each client takes
// ---------------------------------------------------------------------------
/// The rule types every client takes.
pub open spec fn basic_types() -> Seq<Seq<char>> {
    seq![
        "DOMAIN"@,
        "DOMAIN-SUFFIX"@,
        "DOMAIN-KEYWORD"@,
        "IP-CIDR"@,
        "SRC-IP-CIDR"@,
        "GEOIP"@,
        "MATCH"@,
        "FINAL"@,
    ]
}

/// The rule types of Quantumult X.
pub open spec fn quanx_types() -> Seq<Seq<char>> {
    basic_types() + seq!["USER-AGENT"@, "HOST"@, "HOST-SUFFIX"@, "HOST-KEYWORD"@]
}

/// The rule types of Surfboard.
pub open spec fn surf_types() -> Seq<Seq<char>> {
    basic_types() + seq!["IP-CIDR6"@, "PROCESS-NAME"@, "IN-PORT"@, "DEST-PORT"@, "SRC-IP"@]
}

/// The rule types of Surge 2.
pub open spec fn surge2_types() -> Seq<Seq<char>> {
    basic_types() + seq![
        "IP-CIDR6"@,
        "USER-AGENT"@,
        "URL-REGEX"@,
        "PROCESS-NAME"@,
        "IN-PORT"@,
        "DEST-PORT"@,
        "SRC-IP"@,
    ]
}

/// The rule types of Surge 3 and later.
pub open spec fn surge_types() -> Seq<Seq<char>> {
    basic_types() + seq![
        "IP-CIDR6"@,
        "USER-AGENT"@,
        "URL-REGEX"@,
        "AND"@,
        "OR"@,
        "NOT"@,
        "PROCESS-NAME"@,
        "IN-PORT"@,
        "DEST-PORT"@,
        "SRC-IP"@,
    ]
}

/// Whether `l` starts with one of `types`.
pub open spec fn starts_with_any(l: Seq<char>, types: Seq<Seq<char>>) -> bool {
    exists|i: int| 0 <= i < types.len() && #[trigger] has_prefix(l, types[i])
}

/// Whether the client of version `surge_ver` takes the rule `l`: Quantumult
/// (-2) takes the Quantumult X types but for IPv6 ranges, Quantumult X (-1)
/// its types, Surfboard (-3) its own, Surge 3 and later theirs, and any
/// other version the Surge 2 types.
pub open spec fn rule_supported(l: Seq<char>, surge_ver: int) -> bool {
    if surge_ver == -2 {
        !has_prefix(l, "IP-CIDR6"@) && starts_with_any(l, quanx_types())
    } else if surge_ver == -1 {
        starts_with_any(l, quanx_types())
    } else if surge_ver == -3 {
        starts_with_any(l, surf_types())
    } else if surge_ver > 2 {
        starts_with_any(l, surge_types())
    } else {
        starts_with_any(l, surge2_types())
    }
}

/// Whether a rule is a logical one (`AND`, `OR` or `NOT`), which is kept as
/// it is.
pub open spec fn is_logical(l: Seq<char>) -> bool {
    has_prefix(l, "AND"@) || has_prefix(l, "OR"@) || has_prefix(l, "NOT"@)
}

/// A rule routed to `group` in the style of the client: the Quantumult
/// clients keep only a `no-resolve` option and write IPv6 ranges as
/// `IP6-CIDR`; the others keep logical rules as they are.
pub open spec fn routed_rule(l: Seq<char>, group: Seq<char>, surge_ver: int) -> Seq<char> {
    if surge_ver == -1 || surge_ver == -2 {
        let l3 = if has_prefix(l, "IP-CIDR6"@) {
            "IP6-CIDR"@ + l.skip(8)
        } else {
            l
        };
        rule_to_common(l3, group, true)
    } else if is_logical(l) {
        l
    } else {
        rule_to_common(l, group, false)
    }
}

/// The configuration line for one line of a converted ruleset; `None` for
/// an empty line, a comment, or a rule the client does not take.
pub open spec fn surge_line(line: Seq<char>, group: Seq<char>, surge_ver: int) -> Option<Seq<char>> {
    let l = trim(line);
    if l.len() == 0 || l[0] == ';' || l[0] == '#' || has_prefix(l, "//"@) {
        None
    } else if !rule_supported(l, surge_ver) {
        None
    } else {
        let l2 = if contains_seq(l, "//"@) {
            trim(before_sub(l, "//"@))
        } else {
            l
        };
        Some(routed_rule(l2, group, surge_ver))
    }
}

/// The configuration lines for `lines`, in order.
pub open spec fn surge_lines_of(lines: Seq<Seq<char>>, group: Seq<char>, surge_ver: int) -> Seq<
    Seq<char>,
>
    decreases lines.len(),
{
    if lines.len() == 0 {
        Seq::empty()
    } else {
        let prev = surge_lines_of(lines.drop_last(), group, surge_ver);
        match surge_line(lines.last(), group, surge_ver) {
            Some(x) => prev.push(x),
            None => prev,
        }
    }
}

/// The configuration lines for a fetched ruleset of dialect `t`.
pub open spec fn ruleset_lines(content: Seq<char>, t: RulesetType, group: Seq<char>, surge_ver: int) -> Seq<
    Seq<char>,
> {
    surge_lines_of(split_char(converted_ruleset(content, t), '\n'), group, surge_ver)
}

/// At most `budget` of `lines`, from the start; all of them without a budget.
pub open spec fn within_budget(lines: Seq<Seq<char>>, budget: Option<usize>) -> Seq<Seq<char>> {
    match budget {
        Some(b) => if b < lines.len() {
            lines.take(b as int)
        } else {
            lines
        },
        None => lines,
    }
}

/// The characters after the first two bytes of the UTF-8 form of `s`,
/// where those two bytes end a character: after two ASCII characters, or
/// after one character of two bytes.
pub open spec fn after_two_bytes(s: Seq<char>) -> Option<Seq<char>> {
    if s.len() >= 2 && (s[0] as u32) < 0x80 && (s[1] as u32) < 0x80 {
        Some(s.skip(2))
    } else if s.len() >= 1 && 0x80 <= (s[0] as u32) && (s[0] as u32) < 0x800 {
        Some(s.skip(1))
    } else {
        None
    }
}

/// The configuration line of an inline rule: `MATCH` is written `FINAL`,
/// the rule is routed to `group` (see [`routed_rule`], but for the
/// `IP6-CIDR` spelling), and doubled commas are made single.
pub open spec fn inline_surge_line(line: Seq<char>, group: Seq<char>, surge_ver: int) -> Seq<char> {
    let l = if line == "MATCH"@ {
        "FINAL"@
    } else {
        line
    };
    let routed = if surge_ver == -1 || surge_ver == -2 {
        rule_to_common(l, group, true)
    } else if is_logical(l) {
        l
    } else {
        rule_to_common(l, group, false)
    };
    replace_all(routed, ",,"@, ","@)
}

// ---------------------------------------------------------------------------
// Executable functions
// ---------------------------------------------------------------------------
/// Whether `l` starts with one of `types`.
pub(crate) fn starts_with_any_exec(l: &[char], types: &Vec<&str>) -> (r: bool)
    ensures
        r == starts_with_any(l@, types@.map_values(|s: &str| s@)),
{
    let ghost tv = types@.map_values(|s: &str| s@);
    let mut i: usize = 0;
    while i < types.len()
        invariant
            i <= types@.len(),
            tv == types@.map_values(|s: &str| s@),
            forall|j: int| 0 <= j < i ==> !#[trigger] has_prefix(l@, tv[j]),
        decreases types@.len() - i,
    {
        if starts_with_str(l, types[i]) {
            assert(has_prefix(l@, tv[i as int]));
            return true;
        }
        i = i + 1;
    }
    false
}

/// Whether the client takes the rule `l` (see [`rule_supported`]).
fn rule_supported_exec(l: &[char], surge_ver: i32) -> (r: bool)
    ensures
        r == rule_supported(l@, surge_ver as int),
{
    if surge_ver == -2 || surge_ver == -1 {
        let types = vec!["DOMAIN", "DOMAIN-SUFFIX", "DOMAIN-KEYWORD", "IP-CIDR", "SRC-IP-CIDR", "GEOIP", "MATCH", "FINAL", "USER-AGENT", "HOST", "HOST-SUFFIX", "HOST-KEYWORD"];
        assert(types@.map_values(|s: &str| s@) =~= quanx_types());
        if surge_ver == -2 && starts_with_str(l, "IP-CIDR6") {
            return false;
        }
        starts_with_any_exec(l, &types)
    } else if surge_ver == -3 {
        let types = vec!["DOMAIN", "DOMAIN-SUFFIX", "DOMAIN-KEYWORD", "IP-CIDR", "SRC-IP-CIDR", "GEOIP", "MATCH", "FINAL", "IP-CIDR6", "PROCESS-NAME", "IN-PORT", "DEST-PORT", "SRC-IP"];
        assert(types@.map_values(|s: &str| s@) =~= surf_types());
        starts_with_any_exec(l, &types)
    } else if surge_ver > 2 {
        let types = vec!["DOMAIN", "DOMAIN-SUFFIX", "DOMAIN-KEYWORD", "IP-CIDR", "SRC-IP-CIDR", "GEOIP", "MATCH", "FINAL", "IP-CIDR6", "USER-AGENT", "URL-REGEX", "AND", "OR", "NOT", "PROCESS-NAME", "IN-PORT", "DEST-PORT", "SRC-IP"];
        assert(types@.map_values(|s: &str| s@) =~= surge_types());
        starts_with_any_exec(l, &types)
    } else {
        let types = vec!["DOMAIN", "DOMAIN-SUFFIX", "DOMAIN-KEYWORD", "IP-CIDR", "SRC-IP-CIDR", "GEOIP", "MATCH", "FINAL", "IP-CIDR6", "USER-AGENT", "URL-REGEX", "PROCESS-NAME", "IN-PORT", "DEST-PORT", "SRC-IP"];
        assert(types@.map_values(|s: &str| s@) =~= surge2_types());
        starts_with_any_exec(l, &types)
    }
}

/// Whether a rule is a logical one (see [`is_logical`]).
fn is_logical_exec(l: &[char]) -> (r: bool)
    ensures
        r == is_logical(l@),
{
    starts_with_str(l, "AND") || starts_with_str(l, "OR") || starts_with_str(l, "NOT")
}

/// A rule routed to a group (see [`routed_rule`]).
fn routed_rule_exec(l: &[char], group: &str, surge_ver: i32) -> (r: String)
    ensures
        r@ == routed_rule(l@, group@, surge_ver as int),
{
    if surge_ver == -1 || surge_ver == -2 {
        let l3 = if starts_with_str(l, "IP-CIDR6") {
            proof {
                reveal_strlit("IP-CIDR6");
            }
            let mut v = chars_of("IP6-CIDR");
            let rest = slice_chars(l, 8, l.len());
            push_all(&mut v, rest.as_slice());
            v
        } else {
            slice_chars(l, 0, l.len())
        };
        assert(l@.subrange(0, l@.len() as int) =~= l@);
        let s = string_of(l3.as_slice());
        transform_rule_to_common(s.as_str(), group, true)
    } else if is_logical_exec(l) {
        string_of(l)
    } else {
        let s = string_of(l);
        transform_rule_to_common(s.as_str(), group, false)
    }
}

/// The configuration line for one line of a converted ruleset (see [`surge_line`]).
fn surge_line_exec(line: &[char], group: &str, surge_ver: i32) -> (r: Option<String>)
    ensures
        match r {
            Some(s) => surge_line(line@, group@, surge_ver as int) == Some(s@),
            None => surge_line(line@, group@, surge_ver as int) is None,
        },
{
    let l = trim_chars(line);
    if l.len() == 0 || l[0] == ';' || l[0] == '#' || starts_with_str(l.as_slice(), "//") {
        return None;
    }
    if !rule_supported_exec(l.as_slice(), surge_ver) {
        return None;
    }
    let l2 = if contains_str(l.as_slice(), "//") {
        let sep = chars_of("//");
        let head = before_sub_exec(l.as_slice(), sep.as_slice());
        trim_chars(head.as_slice())
    } else {
        l
    };
    Some(routed_rule_exec(l2.as_slice(), group, surge_ver))
}

/// The configuration lines for a fetched ruleset of dialect `rule_type`
/// routed to `group` for the client of version `surge_ver` (see
/// [`ruleset_lines`]), at most `budget` of them: the ruleset is converted to
/// the Surge dialect, and each rule the client takes is routed to the group.
pub fn surge_ruleset_lines(
    content: &str,
    rule_type: RulesetType,
    group: &str,
    surge_ver: i32,
    budget: Option<usize>,
) -> (r: Vec<String>)
    requires
        rule_type == RulesetType::Surge || (payload_header(content@) && entries_unquotable(content@)),
    ensures
        r@.map_values(|s: String| s@) == within_budget(
            ruleset_lines(content@, rule_type, group@, surge_ver as int),
            budget,
        ),
{
    let converted = convert_ruleset(content, rule_type);
    let chars = chars_of(converted.as_str());
    let lines = split(chars.as_slice(), '\n');
    let ghost lv = views(lines@);
    let ghost all = surge_lines_of(lv, group@, surge_ver as int);
    assert(lv == split_char(converted_ruleset(content@, rule_type), '\n'));
    let mut out: Vec<String> = Vec::new();
    let mut i: usize = 0;
    while i < lines.len()
        invariant
            i <= lines@.len(),
            lv == views(lines@),
            all == surge_lines_of(lv, group@, surge_ver as int),
            all == ruleset_lines(content@, rule_type, group@, surge_ver as int),
            out@.map_values(|s: String| s@) == surge_lines_of(lv.take(i as int), group@, surge_ver as int),
            budget matches Some(b) ==> out@.len() <= b,
        decreases lines@.len() - i,
    {
        if let Some(b) = budget {
            if out.len() >= b {
                proof {
                    lemma_lines_prefix(lv, i as int, group@, surge_ver as int);
                }
                proof {
                    let got = out@.map_values(|s: String| s@);
                    assert(got.len() == out@.len());
                    if b >= all.len() {
                        assert(all.take(all.len() as int) =~= all);
                    }
                    assert(got =~= within_budget(all, budget));
                }

                return out;
            }
        }
        assert(lv.take(i + 1).drop_last() =~= lv.take(i as int));
        let ghost before = out@.map_values(|s: String| s@);
        match surge_line_exec(lines[i].as_slice(), group, surge_ver) {
            Some(x) => {
                out.push(x);
                assert(out@.map_values(|s: String| s@) =~= before.push(x@));
            },
            None => {},
        }
        i = i + 1;
    }
    assert(lv.take(lv.len() as int) =~= lv);
    out
}

/// The lines for a prefix of the lines are a prefix of the lines for all.
proof fn lemma_lines_prefix(lv: Seq<Seq<char>>, i: int, group: Seq<char>, surge_ver: int)
    requires
        0 <= i <= lv.len(),
    ensures
        surge_lines_of(lv, group, surge_ver).take(
            surge_lines_of(lv.take(i), group, surge_ver).len() as int,
        ) == surge_lines_of(lv.take(i), group, surge_ver),
        surge_lines_of(lv.take(i), group, surge_ver).len() <= surge_lines_of(lv, group, surge_ver).len(),
    decreases lv.len() - i,
{
    if i < lv.len() {
        lemma_lines_prefix(lv, i + 1, group, surge_ver);
        assert(lv.take(i + 1).drop_last() =~= lv.take(i));
        let a = surge_lines_of(lv.take(i), group, surge_ver);
        let b = surge_lines_of(lv.take(i + 1), group, surge_ver);
        let all = surge_lines_of(lv, group, surge_ver);
        assert(b.take(a.len() as int) =~= a);
        assert(all.take(a.len() as int) =~= all.take(b.len() as int).take(a.len() as int));
    } else {
        assert(lv.take(i) =~= lv);
    }
}

/// The configuration line of an inline rule (see [`inline_surge_line`]);
/// `content` is the rule preceded by two bytes (normally `[]`).
pub fn surge_inline_rule(content: &str, group: &str, surge_ver: i32) -> (r: String)
    requires
        after_two_bytes(content@) is Some,
    ensures
        r@ == inline_surge_line(after_two_bytes(content@)->0, group@, surge_ver as int),
{
    let chars = chars_of(content);
    let skip: usize = if (chars[0] as u32) < 0x80 {
        2
    } else {
        1
    };
    let rest = slice_chars(chars.as_slice(), skip, chars.len());
    let line = if eq_str(rest.as_slice(), "MATCH") {
        "FINAL".to_owned()
    } else {
        string_of(rest.as_slice())
    };
    let lc = chars_of(line.as_str());
    let routed = if surge_ver == -1 || surge_ver == -2 {
        transform_rule_to_common(line.as_str(), group, true)
    } else if is_logical_exec(lc.as_slice()) {
        line
    } else {
        transform_rule_to_common(line.as_str(), group, false)
    };
    proof {
        reveal_strlit(",,");
    }
    replace_str(routed.as_str(), ",,", ",")
}

// ---------------------------------------------------------------------------
// Rules of a whole configuration
// ---------------------------------------------------------------------------
/// What a ruleset with a source becomes.
pub enum RemoteRuleView {
    /// This line among the rules.
    Rule(Seq<char>),
    /// This line in the `filter_remote` section (Quantumult X).
    FilterRemote(Seq<char>),
    /// This line in the `Remote Rule` section (Loon).
    RemoteRule(Seq<char>),
    /// Its fetched rules, one by one.
    Content,
    /// Nothing.
    Skip,
}

/// What a ruleset with a source becomes (see [`RemoteRuleView`]).
#[derive(Debug, Clone)]
pub enum RemoteRule {
    Rule(String),
    FilterRemote(String),
    RemoteRule(String),
    Content,
    Skip,
}

impl View for RemoteRule {
    type V = RemoteRuleView;

    open spec fn view(&self) -> RemoteRuleView {
        match self {
            RemoteRule::Rule(s) => RemoteRuleView::Rule(s@),
            RemoteRule::FilterRemote(s) => RemoteRuleView::FilterRemote(s@),
            RemoteRule::RemoteRule(s) => RemoteRuleView::RemoteRule(s@),
            RemoteRule::Content => RemoteRuleView::Content,
            RemoteRule::Skip => RemoteRuleView::Skip,
        }
    }
}

/// The update interval of a `RULE-SET` line, where the ruleset has one.
pub open spec fn interval_part(r: RulesetContent) -> Seq<char> {
    if r.update_interval > 0 {
        ",update-interval="@ + nat_decimal(r.update_interval as nat)
    } else {
        Seq::empty()
    }
}

/// The address under which this server hands out a ruleset, with its group.
pub open spec fn served_rule(r: RulesetContent, prefix: Seq<char>) -> Seq<char> {
    prefix + "/getruleset?type=1&url="@ + b64_text(r.rule_path_typed@) + ","@ + r.group@
}

/// The `filter_remote` line of Quantumult X for a ruleset this server hands
/// out.
pub open spec fn served_filter(r: RulesetContent, prefix: Seq<char>) -> Seq<char> {
    prefix + "/getruleset?type=2&url="@ + b64_text(r.rule_path_typed@) + "&group="@ + b64_text(r.group@)
        + ", tag="@ + r.group@ + ", enabled=true"@
}

/// What a ruleset with a source becomes for the client of version
/// `surge_ver` (Quantumult X -1, Loon -4), with `prefix` the address of
/// this server (empty where it has none) and `exists` whether a file is at
/// the source: a Quantumult X ruleset at a link is a remote filter; a local
/// file is handed out by this server where it has an address (Surge 3 and
/// later, Quantumult X, Loon), else its rules are read; a link is a
/// `RULE-SET` for Surge 3 and later (through this server for other
/// dialects), a remote filter through this server for Quantumult X, a
/// remote rule for Loon, and else its rules are read.
pub open spec fn remote_rule_of(r: RulesetContent, surge_ver: int, prefix: Seq<char>, exists: bool) -> RemoteRuleView {
    let path = r.rule_path@;
    let group = r.group@;
    let has_prefix_addr = prefix.len() > 0;
    if surge_ver == -1 && r.rule_type == RulesetType::Quanx && link_text(path) {
        RemoteRuleView::FilterRemote(
            path + ", tag="@ + group + ", force-policy="@ + group + ", enabled=true"@,
        )
    } else if exists {
        if surge_ver > 2 && has_prefix_addr {
            RemoteRuleView::Rule("RULE-SET,"@ + served_rule(r, prefix) + interval_part(r))
        } else if surge_ver == -1 && has_prefix_addr {
            RemoteRuleView::FilterRemote(served_filter(r, prefix))
        } else if surge_ver == -4 && has_prefix_addr {
            RemoteRuleView::RemoteRule(served_rule(r, prefix))
        } else {
            RemoteRuleView::Content
        }
    } else if link_text(path) {
        if surge_ver > 2 {
            if r.rule_type != RulesetType::Surge {
                if has_prefix_addr {
                    RemoteRuleView::Rule("RULE-SET,"@ + served_rule(r, prefix) + interval_part(r))
                } else {
                    RemoteRuleView::Skip
                }
            } else {
                RemoteRuleView::Rule("RULE-SET,"@ + path + ","@ + group + interval_part(r))
            }
        } else if surge_ver == -1 && has_prefix_addr {
            RemoteRuleView::FilterRemote(served_filter(r, prefix))
        } else if surge_ver == -4 {
            RemoteRuleView::RemoteRule(path + ","@ + group)
        } else {
            RemoteRuleView::Content
        }
    } else {
        RemoteRuleView::Skip
    }
}

/// The rules of a configuration so far, and how many count against the
/// limit (inline and fetched rules).
pub struct SurgeRulesView {
    pub rules: Seq<Seq<char>>,
    pub filter_remote: Seq<Seq<char>>,
    pub remote_rule: Seq<Seq<char>>,
    pub total: nat,
}

/// A ruleset whose fetched rules can be read: Surge rules, or a Clash
/// payload whose entries can be taken out of their quotes.
pub open spec fn readable(r: RulesetContent) -> bool {
    r.rule_type == RulesetType::Surge || (payload_header(content_text(&r)) && entries_unquotable(
        content_text(&r),
    ))
}

/// The rules after one more ruleset; `None` where the ruleset cannot be
/// read (an inline rule shorter than its `[]` mark, or fetched rules that
/// cannot be converted). Once `max` rules (where `max` is not 0) count,
/// later rulesets add nothing.
pub open spec fn rules_step(
    acc: Option<SurgeRulesView>,
    r: RulesetContent,
    surge_ver: int,
    prefix: Seq<char>,
    max: usize,
    exists: bool,
) -> Option<SurgeRulesView> {
    match acc {
        None => None,
        Some(a) => if max > 0 && a.total >= max {
            Some(a)
        } else if r.rule_path@.len() == 0 {
            match after_two_bytes(content_text(&r)) {
                None => None,
                Some(l) => Some(
                    SurgeRulesView {
                        rules: a.rules.push(inline_surge_line(l, r.group@, surge_ver)),
                        filter_remote: a.filter_remote,
                        remote_rule: a.remote_rule,
                        total: a.total + 1,
                    },
                ),
            }
        } else {
            match remote_rule_of(r, surge_ver, prefix, exists) {
                RemoteRuleView::Rule(l) => Some(
                    SurgeRulesView {
                        rules: a.rules.push(l),
                        filter_remote: a.filter_remote,
                        remote_rule: a.remote_rule,
                        total: a.total,
                    },
                ),
                RemoteRuleView::FilterRemote(l) => Some(
                    SurgeRulesView {
                        rules: a.rules,
                        filter_remote: a.filter_remote.push(l),
                        remote_rule: a.remote_rule,
                        total: a.total,
                    },
                ),
                RemoteRuleView::RemoteRule(l) => Some(
                    SurgeRulesView {
                        rules: a.rules,
                        filter_remote: a.filter_remote,
                        remote_rule: a.remote_rule.push(l),
                        total: a.total,
                    },
                ),
                RemoteRuleView::Skip => Some(a),
                RemoteRuleView::Content => if content_text(&r).len() == 0 {
                    Some(a)
                } else if !readable(r) {
                    None
                } else {
                    let lines = within_budget(
                        ruleset_lines(content_text(&r), r.rule_type, r.group@, surge_ver),
                        if max > 0 {
                            Some((max - a.total) as usize)
                        } else {
                            None
                        },
                    );
                    Some(
                        SurgeRulesView {
                            rules: a.rules + lines,
                            filter_remote: a.filter_remote,
                            remote_rule: a.remote_rule,
                            total: a.total + lines.len(),
                        },
                    )
                },
            }
        },
    }
}

/// The rules of a configuration from its rulesets in order (see
/// [`rules_step`]); `exists` tells for each ruleset whether a file is at
/// its source.
pub open spec fn surge_rules_of(
    rs: Seq<RulesetContent>,
    surge_ver: int,
    prefix: Seq<char>,
    max: usize,
    exists: Seq<bool>,
) -> Option<SurgeRulesView>
    decreases rs.len(),
{
    if rs.len() == 0 || exists.len() != rs.len() {
        if rs.len() == 0 {
            Some(SurgeRulesView { rules: Seq::empty(), filter_remote: Seq::empty(), remote_rule: Seq::empty(), total: 0 })
        } else {
            None
        }
    } else {
        rules_step(
            surge_rules_of(rs.drop_last(), surge_ver, prefix, max, exists.drop_last()),
            rs.last(),
            surge_ver,
            prefix,
            max,
            exists.last(),
        )
    }
}

/// A ruleset that cannot be read stops the whole configuration: once the
/// rules of the first rulesets are `None`, so are those of all.
proof fn lemma_rules_prefix(
    rs: Seq<RulesetContent>,
    surge_ver: int,
    prefix: Seq<char>,
    max: usize,
    exists: Seq<bool>,
    i: int,
)
    requires
        0 <= i <= rs.len(),
        exists.len() == rs.len(),
        surge_rules_of(rs.take(i), surge_ver, prefix, max, exists.take(i)) is None,
    ensures
        surge_rules_of(rs, surge_ver, prefix, max, exists) is None,
    decreases rs.len() - i,
{
    if i < rs.len() {
        assert(rs.take(i + 1).drop_last() =~= rs.take(i));
        assert(exists.take(i + 1).drop_last() =~= exists.take(i));
        lemma_rules_prefix(rs, surge_ver, prefix, max, exists, i + 1);
    } else {
        assert(rs.take(i) =~= rs);
        assert(exists.take(i) =~= exists);
    }
}

/// The limit on rules holds: where `max` is not 0, no more than `max`
/// inline and fetched rules are written, however many rulesets there are.
pub proof fn law_rule_limit(
    rs: Seq<RulesetContent>,
    surge_ver: int,
    prefix: Seq<char>,
    max: usize,
    exists: Seq<bool>,
)
    ensures
        surge_rules_of(rs, surge_ver, prefix, max, exists) matches Some(v) ==> (max > 0 ==> v.total
            <= max),
    decreases rs.len(),
{
    if rs.len() > 0 && exists.len() == rs.len() {
        law_rule_limit(rs.drop_last(), surge_ver, prefix, max, exists.drop_last());
    }
}

/// The rules of a configuration (see [`SurgeRulesView`]).
#[derive(Debug, Clone)]
pub struct SurgeRules {
    /// The lines of the rule section.
    pub rules: Vec<String>,
    /// The lines of the `filter_remote` section (Quantumult X).
    pub filter_remote: Vec<String>,
    /// The lines of the `Remote Rule` section (Loon).
    pub remote_rule: Vec<String>,
}

/// Appends the address under which this server hands out a ruleset.
fn push_served(v: &mut Vec<char>, r: &RulesetContent, prefix: &str)
    ensures
        final(v)@ == old(v)@ + served_rule(*r, prefix@),
{
    push_str(v, prefix);
    push_str(v, "/getruleset?type=1&url=");
    let e = url_safe_base64_encode(r.rule_path_typed.as_str());
    push_str(v, e.as_str());
    push_str(v, ",");
    push_str(v, r.group.as_str());
    assert(v@ =~= old(v)@ + served_rule(*r, prefix@));
}

/// Appends the update interval where the ruleset has one.
fn push_interval(v: &mut Vec<char>, r: &RulesetContent)
    ensures
        final(v)@ == old(v)@ + interval_part(*r),
{
    if r.update_interval > 0 {
        push_str(v, ",update-interval=");
        let d = u64_decimal(r.update_interval as u64);
        push_all(v, d.as_slice());
    }
    assert(v@ =~= old(v)@ + interval_part(*r));
}

/// The `filter_remote` line for a ruleset this server hands out.
fn served_filter_exec(r: &RulesetContent, prefix: &str) -> (s: String)
    ensures
        s@ == served_filter(*r, prefix@),
{
    let mut v = chars_of(prefix);
    push_str(&mut v, "/getruleset?type=2&url=");
    let e = url_safe_base64_encode(r.rule_path_typed.as_str());
    push_str(&mut v, e.as_str());
    push_str(&mut v, "&group=");
    let g = url_safe_base64_encode(r.group.as_str());
    push_str(&mut v, g.as_str());
    push_str(&mut v, ", tag=");
    push_str(&mut v, r.group.as_str());
    push_str(&mut v, ", enabled=true");
    let s = string_of(v.as_slice());
    assert(s@ =~= served_filter(*r, prefix@));
    s
}

/// A `RULE-SET` line through this server.
fn served_rule_set(r: &RulesetContent, prefix: &str) -> (s: String)
    ensures
        s@ == "RULE-SET,"@ + served_rule(*r, prefix@) + interval_part(*r),
{
    let mut v = chars_of("RULE-SET,");
    push_served(&mut v, r, prefix);
    push_interval(&mut v, r);
    string_of(v.as_slice())
}

/// What a ruleset with a source becomes (see [`remote_rule_of`]).
pub fn remote_rule(r: &RulesetContent, surge_ver: i32, prefix: &str, exists: bool) -> (x: RemoteRule)
    ensures
        x@ == remote_rule_of(*r, surge_ver as int, prefix@, exists),
{
    let path = r.rule_path.as_str();
    let has_addr = !prefix.is_empty();
    if surge_ver == -1 && r.rule_type == RulesetType::Quanx && is_link(path) {
        let mut v = chars_of(path);
        push_str(&mut v, ", tag=");
        push_str(&mut v, r.group.as_str());
        push_str(&mut v, ", force-policy=");
        push_str(&mut v, r.group.as_str());
        push_str(&mut v, ", enabled=true");
        let s = string_of(v.as_slice());
        assert(s@ =~= path@ + ", tag="@ + r.group@ + ", force-policy="@ + r.group@ + ", enabled=true"@);
        RemoteRule::FilterRemote(s)
    } else if exists {
        if surge_ver > 2 && has_addr {
            RemoteRule::Rule(served_rule_set(r, prefix))
        } else if surge_ver == -1 && has_addr {
            RemoteRule::FilterRemote(served_filter_exec(r, prefix))
        } else if surge_ver == -4 && has_addr {
            let mut v: Vec<char> = Vec::new();
            push_served(&mut v, r, prefix);
            assert(v@ =~= served_rule(*r, prefix@));
            RemoteRule::RemoteRule(string_of(v.as_slice()))
        } else {
            RemoteRule::Content
        }
    } else if is_link(path) {
        if surge_ver > 2 {
            if r.rule_type != RulesetType::Surge {
                if has_addr {
                    RemoteRule::Rule(served_rule_set(r, prefix))
                } else {
                    RemoteRule::Skip
                }
            } else {
                let mut v = chars_of("RULE-SET,");
                push_str(&mut v, path);
                push_str(&mut v, ",");
                push_str(&mut v, r.group.as_str());
                push_interval(&mut v, r);
                let s = string_of(v.as_slice());
                assert(s@ =~= "RULE-SET,"@ + path@ + ","@ + r.group@ + interval_part(*r));
                RemoteRule::Rule(s)
            }
        } else if surge_ver == -1 && has_addr {
            RemoteRule::FilterRemote(served_filter_exec(r, prefix))
        } else if surge_ver == -4 {
            let mut v = chars_of(path);
            push_str(&mut v, ",");
            push_str(&mut v, r.group.as_str());
            let s = string_of(v.as_slice());
            assert(s@ =~= path@ + ","@ + r.group@);
            RemoteRule::RemoteRule(s)
        } else {
            RemoteRule::Content
        }
    } else {
        RemoteRule::Skip
    }
}

/// The rules of a configuration for the client of version `surge_ver` from
/// its rulesets in order (see [`surge_rules_of`]): `remote_path_prefix` is
/// the address of this server (empty where it has none),
/// `max_allowed_rules` the limit on inline and fetched rules (0 for none),
/// and `path_exists` tells for each ruleset whether a file is at its source.
pub fn surge_rules(
    rulesets: &Vec<RulesetContent>,
    surge_ver: i32,
    remote_path_prefix: &str,
    max_allowed_rules: usize,
    path_exists: &Vec<bool>,
) -> (r: SurgeRules)
    requires
        path_exists@.len() == rulesets@.len(),
        surge_rules_of(rulesets@, surge_ver as int, remote_path_prefix@, max_allowed_rules, path_exists@) is Some,
    ensures
        ({
            let v = surge_rules_of(
                rulesets@,
                surge_ver as int,
                remote_path_prefix@,
                max_allowed_rules,
                path_exists@,
            )->0;
            &&& string_views(r.rules@) == v.rules
            &&& string_views(r.filter_remote@) == v.filter_remote
            &&& string_views(r.remote_rule@) == v.remote_rule
        }),
{
    let ghost rs = rulesets@;
    let ghost ex = path_exists@;
    let ghost pv = remote_path_prefix@;
    let mut rules: Vec<String> = Vec::new();
    let mut filter_remote: Vec<String> = Vec::new();
    let mut remote_rules: Vec<String> = Vec::new();
    let mut total: usize = 0;
    let mut i: usize = 0;
    assert(rs.take(0) =~= Seq::<RulesetContent>::empty());
    assert(ex.take(0) =~= Seq::<bool>::empty());
    assert(string_views(rules@) =~= Seq::<Seq<char>>::empty());
    assert(string_views(filter_remote@) =~= Seq::<Seq<char>>::empty());
    assert(string_views(remote_rules@) =~= Seq::<Seq<char>>::empty());
    while i < rulesets.len()
        invariant
            i <= rs.len(),
            rs == rulesets@,
            ex == path_exists@,
            pv == remote_path_prefix@,
            ex.len() == rs.len(),
            surge_rules_of(rs, surge_ver as int, pv, max_allowed_rules, ex) is Some,
            surge_rules_of(rs.take(i as int), surge_ver as int, pv, max_allowed_rules, ex.take(i as int))
                == Some(
                SurgeRulesView {
                    rules: string_views(rules@),
                    filter_remote: string_views(filter_remote@),
                    remote_rule: string_views(remote_rules@),
                    total: total as nat,
                },
            ),
            total <= rules@.len(),
            max_allowed_rules > 0 ==> total <= max_allowed_rules,
        decreases rs.len() - i,
    {
        assert(rs.take(i + 1).drop_last() =~= rs.take(i as int));
        assert(ex.take(i + 1).drop_last() =~= ex.take(i as int));
        assert(rs.take(i + 1).last() == rs[i as int]);
        assert(ex.take(i + 1).last() == ex[i as int]);
        proof {
            if surge_rules_of(rs.take(i + 1), surge_ver as int, pv, max_allowed_rules, ex.take(i + 1)) is None {
                lemma_rules_prefix(rs, surge_ver as int, pv, max_allowed_rules, ex, i + 1);
            }
        }
        let ghost before = (string_views(rules@), string_views(filter_remote@), string_views(remote_rules@));
        let r = &rulesets[i];
        if max_allowed_rules > 0 && total >= max_allowed_rules {
        } else if r.rule_path.as_str().is_empty() {
            let content = r.get_rule_content();
            let line = surge_inline_rule(content.as_str(), r.group.as_str(), surge_ver);
            rules.push(line);
            assert(string_views(rules@) =~= before.0.push(line@));
            let pushed = rules.len();
            assert(total < pushed);
            total = total + 1;
        } else {
            match remote_rule(r, surge_ver, remote_path_prefix, path_exists[i]) {
                RemoteRule::Rule(l) => {
                    rules.push(l);
                    assert(string_views(rules@) =~= before.0.push(l@));
                },
                RemoteRule::FilterRemote(l) => {
                    filter_remote.push(l);
                    assert(string_views(filter_remote@) =~= before.1.push(l@));
                },
                RemoteRule::RemoteRule(l) => {
                    remote_rules.push(l);
                    assert(string_views(remote_rules@) =~= before.2.push(l@));
                },
                RemoteRule::Skip => {},
                RemoteRule::Content => {
                    let content = r.get_rule_content();
                    if !content.as_str().is_empty() {
                        let budget = if max_allowed_rules > 0 {
                            Some(max_allowed_rules - total)
                        } else {
                            None
                        };
                        let lines = surge_ruleset_lines(
                            content.as_str(),
                            r.rule_type,
                            r.group.as_str(),
                            surge_ver,
                            budget,
                        );
                        let ghost lv = lines@.map_values(|s: String| s@);
                        let mut j: usize = 0;
                        while j < lines.len()
                            invariant
                                j <= lines@.len(),
                                lv == lines@.map_values(|s: String| s@),
                                string_views(rules@) == before.0 + lv.take(j as int),
                                total <= before.0.len(),
                            decreases lines@.len() - j,
                        {
                            let ghost b = string_views(rules@);
                            rules.push(lines[j].clone());
                            assert(string_views(rules@) =~= b.push(lines@[j as int]@));
                            assert(lv.take(j + 1) =~= lv.take(j as int).push(lv[j as int]));
                            j = j + 1;
                        }
                        assert(lv.take(j as int) =~= lv);
                        let pushed = rules.len();
                        assert(total + lines@.len() <= pushed);
                        total = total + lines.len();
                    }
                },
            }
        }
        i = i + 1;
    }
    assert(rs.take(i as int) =~= rs);
    assert(ex.take(i as int) =~= ex);
    SurgeRules { rules, filter_remote, remote_rule: remote_rules }
}

} // verus!

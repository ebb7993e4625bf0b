//! Regular expressions, through the `regex` crate.
use crate::generator::config::subexport::{match_range, match_range_spec};
use crate::models::proxy::{Proxy, ProxyType};
use crate::text::{chars_of, has_prefix, push_str, starts_with_str, string_of, string_views};
use vstd::prelude::*;

verus! {

/// What the `regex` crate answers when asked whether `text` contains a match
/// of the regular expression `pattern`; `None` where `pattern` does not
/// compile.
pub uninterp spec fn regex_search(pattern: Seq<char>, text: Seq<char>) -> Option<bool>;

/// Compiles `pattern` with `regex::Regex::new` and, where that succeeds, asks
/// `Regex::is_match` whether `text` contains a match. Trusted: the result is
/// the crate's, named [`regex_search`]. Two facts are stated beyond the name,
/// for patterns the library uses: `.*`, which matches the empty string,
/// compiles and matches any text; and `^payload:\r?\n` compiles and matches
/// exactly the texts that start with `payload:` and a line break, with or
/// without a carriage return before it.
#[verifier::external_body]
pub(crate) fn regex_is_match(pattern: &str, text: &str) -> (r: Option<bool>)
    ensures
        r == regex_search(pattern@, text@),
        pattern@ == ".*"@ ==> r == Some(true),
        pattern@ == "^payload:\\r?\\n"@ ==> r == Some(
            has_prefix(text@, "payload:\n"@) || has_prefix(text@, "payload:\r\n"@),
        ),
{
    match regex::Regex::new(pattern) {
        Ok(re) => Some(re.is_match(text)),
        Err(_) => None,
    }
}

/// The groups of the first match of the regular expression `pattern` in
/// `text`, as the `regex` crate finds them: the whole match first, then
/// each capture group (empty where it took no part); no group where there
/// is no match or `pattern` does not compile.
pub uninterp spec fn regex_captures(pattern: Seq<char>, text: Seq<char>) -> Seq<Seq<char>>;

/// Compiles `pattern` with `regex::Regex::new` and, where that succeeds,
/// takes `Regex::captures` of `text`, each group as its text. Trusted: the
/// result is the crate's, named [`regex_captures`].
#[verifier::external_body]
pub(crate) fn reg_get_match(text: &str, pattern: &str) -> (r: Vec<String>)
    ensures
        string_views(r@) == regex_captures(pattern@, text@),
{
    let mut out = Vec::new();
    if let Ok(re) = regex::Regex::new(pattern) {
        if let Some(caps) = re.captures(text) {
            for m in caps.iter() {
                out.push(m.map_or(String::new(), |x| x.as_str().to_string()));
            }
        }
    }
    out
}

/// What the `regex` crate gives for `text` with every match of `pattern`
/// replaced by `replacement` (which may name groups with `$`); `text`
/// itself where `pattern` does not compile.
pub uninterp spec fn regex_replaced(pattern: Seq<char>, text: Seq<char>, replacement: Seq<char>) -> Seq<char>;

/// Compiles `pattern` with `regex::Regex::new` and, where that succeeds,
/// takes `Regex::replace_all` of `text` with `replacement`; `text`
/// unchanged where the pattern does not compile. Trusted: the result is the
/// crate's, named [`regex_replaced`].
#[verifier::external_body]
pub(crate) fn regex_replace_all(text: &str, pattern: &str, replacement: &str) -> (r: String)
    ensures
        r@ == regex_replaced(pattern@, text@, replacement@),
{
    match regex::Regex::new(pattern) {
        Ok(re) => re.replace_all(text, replacement).into_owned(),
        Err(_) => text.to_string(),
    }
}

/// Whether `pattern` finds a match in `src`, ignoring case; `false` where
/// the pattern does not compile.
pub open spec fn reg_find_spec(src: Seq<char>, pattern: Seq<char>) -> bool {
    regex_search("(?i)"@ + pattern, src) == Some(true)
}

/// Whether `pattern` matches the whole of `src`; `false` where the pattern
/// does not compile.
pub open spec fn reg_match_spec(src: Seq<char>, pattern: Seq<char>) -> bool {
    regex_search("^(?:"@ + pattern + ")$"@, src) == Some(true)
}

/// Searches `src` for `pattern`, ignoring case (see [`reg_find_spec`]).
pub fn reg_find(src: &str, pattern: &str) -> (r: bool)
    ensures
        r == reg_find_spec(src@, pattern@),
{
    let mut p = chars_of("(?i)");
    push_str(&mut p, pattern);
    let ps = string_of(p.as_slice());
    match regex_is_match(ps.as_str(), src) {
        Some(b) => b,
        None => false,
    }
}

/// Matches the whole of `src` against `pattern` (see [`reg_match_spec`]).
pub fn reg_match(src: &str, pattern: &str) -> (r: bool)
    ensures
        r == reg_match_spec(src@, pattern@),
{
    let mut p = chars_of("^(?:");
    push_str(&mut p, pattern);
    push_str(&mut p, ")$");
    let ps = string_of(p.as_slice());
    match regex_is_match(ps.as_str(), src) {
        Some(b) => b,
        None => false,
    }
}

/// The name by which `!!TYPE=` rules match a protocol.
pub open spec fn type_rule_name(t: ProxyType) -> Seq<char> {
    match t {
        ProxyType::Shadowsocks => "SS"@,
        ProxyType::ShadowsocksR => "SSR"@,
        ProxyType::VMess => "VMESS"@,
        ProxyType::Vless => "VLESS"@,
        ProxyType::Trojan => "TROJAN"@,
        ProxyType::Snell => "SNELL"@,
        ProxyType::HTTP => "HTTP"@,
        ProxyType::HTTPS => "HTTPS"@,
        ProxyType::Socks5 => "SOCKS5"@,
        ProxyType::WireGuard => "WIREGUARD"@,
        ProxyType::Hysteria => "HYSTERIA"@,
        ProxyType::Hysteria2 => "HYSTERIA2"@,
        ProxyType::AnyTls => "ANYTLS"@,
        ProxyType::Unknown => Seq::empty(),
    }
}

/// The name by which `!!TYPE=` rules match a protocol (see
/// [`type_rule_name`]).
fn type_rule_name_exec(t: ProxyType) -> (r: &'static str)
    ensures
        r@ == type_rule_name(t),
{
    let r = match t {
        ProxyType::Shadowsocks => "SS",
        ProxyType::ShadowsocksR => "SSR",
        ProxyType::VMess => "VMESS",
        ProxyType::Vless => "VLESS",
        ProxyType::Trojan => "TROJAN",
        ProxyType::Snell => "SNELL",
        ProxyType::HTTP => "HTTP",
        ProxyType::HTTPS => "HTTPS",
        ProxyType::Socks5 => "SOCKS5",
        ProxyType::WireGuard => "WIREGUARD",
        ProxyType::Hysteria => "HYSTERIA",
        ProxyType::Hysteria2 => "HYSTERIA2",
        ProxyType::AnyTls => "ANYTLS",
        ProxyType::Unknown => "",
    };
    proof {
        reveal_strlit("");
    }
    r
}

/// The pattern that splits a `!!GROUP=` rule into its group pattern and the
/// rule that follows a further `!!`.
pub open spec fn group_rule_re() -> Seq<char> {
    "^!!(?:GROUP)=(.+?)(?:!!(.*))?$"@
}

/// The pattern of `!!GROUPID=` and `!!INSERT=` rules.
pub open spec fn groupid_rule_re() -> Seq<char> {
    "^!!(?:GROUPID|INSERT)=([\\d\\-+!,]+)(?:!!(.*))?$"@
}

/// The pattern of `!!TYPE=` rules.
pub open spec fn type_rule_re() -> Seq<char> {
    "^!!(?:TYPE)=(.+?)(?:!!(.*))?$"@
}

/// The pattern of `!!PORT=` rules.
pub open spec fn port_rule_re() -> Seq<char> {
    "^!!(?:PORT)=(.+?)(?:!!(.*))?$"@
}

/// The pattern of `!!SERVER=` rules.
pub open spec fn server_rule_re() -> Seq<char> {
    "^!!(?:SERVER)=(.+?)(?:!!(.*))?$"@
}

/// The target of a special rule and the rule that follows it, as the
/// rule's pattern `re` takes them apart; both empty where it does not
/// match.
pub open spec fn rule_parts(rule: Seq<char>, re: Seq<char>) -> (Seq<char>, Seq<char>) {
    let c = regex_captures(re, rule);
    if c.len() >= 3 {
        (c[1], c[2])
    } else {
        (Seq::empty(), Seq::empty())
    }
}

/// Whether a node passes the special part of a rule, and the rule left to
/// apply to its remark: `!!GROUP=` tests the node's group, `!!GROUPID=` its
/// group number (`!!INSERT=` the negated number) against a range, `!!TYPE=`
/// its protocol's name (never an unknown protocol), `!!PORT=` its port
/// against a range and `!!SERVER=` its server; any other rule is left whole
/// for the remark.
pub open spec fn apply_matcher_spec(rule: Seq<char>, node: Proxy) -> (bool, Seq<char>) {
    if has_prefix(rule, "!!GROUP="@) {
        let (t, rest) = rule_parts(rule, group_rule_re());
        (reg_find_spec(node.group@, t), rest)
    } else if has_prefix(rule, "!!GROUPID="@) || has_prefix(rule, "!!INSERT="@) {
        let (t, rest) = rule_parts(rule, groupid_rule_re());
        let id: int = if has_prefix(rule, "!!INSERT="@) {
            -node.group_id
        } else {
            node.group_id as int
        };
        (match_range_spec(t, id as i32), rest)
    } else if has_prefix(rule, "!!TYPE="@) {
        let (t, rest) = rule_parts(rule, type_rule_re());
        (node.proxy_type != ProxyType::Unknown && reg_match_spec(type_rule_name(node.proxy_type), t), rest)
    } else if has_prefix(rule, "!!PORT="@) {
        let (t, rest) = rule_parts(rule, port_rule_re());
        (match_range_spec(t, node.port as i32), rest)
    } else if has_prefix(rule, "!!SERVER="@) {
        let (t, rest) = rule_parts(rule, server_rule_re());
        (reg_find_spec(node.hostname@, t), rest)
    } else {
        (true, rule)
    }
}

/// A rule may negate a node's group number only where that fits.
pub open spec fn matcher_fits(rule: Seq<char>, node: Proxy) -> bool {
    has_prefix(rule, "!!INSERT="@) ==> node.group_id != i32::MIN
}

/// The target and the rest of a special rule (see [`rule_parts`]).
fn rule_parts_exec(rule: &str, re: &str) -> (r: (String, String))
    ensures
        (r.0@, r.1@) == rule_parts(rule@, re@),
{
    let c = reg_get_match(rule, re);
    if c.len() >= 3 {
        assert(string_views(c@)[1] == c@[1]@ && string_views(c@)[2] == c@[2]@);
        (c[1].clone(), c[2].clone())
    } else {
        (String::new(), String::new())
    }
}

/// Applies the special part of a rule to a node (see
/// [`apply_matcher_spec`]): whether the node passes, and the rule left for
/// its remark.
pub fn apply_matcher(rule: &str, node: &Proxy) -> (r: (bool, String))
    requires
        matcher_fits(rule@, *node),
    ensures
        (r.0, r.1@) == apply_matcher_spec(rule@, *node),
{
    let rc = chars_of(rule);
    if starts_with_str(rc.as_slice(), "!!GROUP=") {
        let (t, rest) = rule_parts_exec(rule, "^!!(?:GROUP)=(.+?)(?:!!(.*))?$");
        (reg_find(node.group.as_str(), t.as_str()), rest)
    } else if starts_with_str(rc.as_slice(), "!!GROUPID=") || starts_with_str(rc.as_slice(), "!!INSERT=") {
        let (t, rest) = rule_parts_exec(rule, "^!!(?:GROUPID|INSERT)=([\\d\\-+!,]+)(?:!!(.*))?$");
        let id: i32 = if starts_with_str(rc.as_slice(), "!!INSERT=") {
            -node.group_id
        } else {
            node.group_id
        };
        (match_range(t.as_str(), id), rest)
    } else if starts_with_str(rc.as_slice(), "!!TYPE=") {
        let (t, rest) = rule_parts_exec(rule, "^!!(?:TYPE)=(.+?)(?:!!(.*))?$");
        if node.proxy_type == ProxyType::Unknown {
            (false, rest)
        } else {
            (reg_match(type_rule_name_exec(node.proxy_type), t.as_str()), rest)
        }
    } else if starts_with_str(rc.as_slice(), "!!PORT=") {
        let (t, rest) = rule_parts_exec(rule, "^!!(?:PORT)=(.+?)(?:!!(.*))?$");
        (match_range(t.as_str(), node.port as i32), rest)
    } else if starts_with_str(rc.as_slice(), "!!SERVER=") {
        let (t, rest) = rule_parts_exec(rule, "^!!(?:SERVER)=(.+?)(?:!!(.*))?$");
        (reg_find(node.hostname.as_str(), t.as_str()), rest)
    } else {
        (true, rule.to_owned())
    }
}

} // verus!

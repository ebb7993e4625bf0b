//! Rule dialects of the clients, as named in conversion requests.
use crate::text::{chars_of, eq_str, fold_lower, fold_lower_exec, push_str, string_of};
use vstd::prelude::*;

verus! {

/// Rule dialect of a client.
#[derive(Debug, Clone, Copy, PartialEq, Eq, Structural)]
pub enum RulesetType {
    Surge,
    Quanx,
    ClashDomain,
    ClashIpcidr,
    ClashClassical,
}

/// The dialect with the lower-case name `n`.
pub open spec fn dialect_of_name(n: Seq<char>) -> Option<RulesetType> {
    if n == "surge"@ {
        Some(RulesetType::Surge)
    } else if n == "quanx"@ {
        Some(RulesetType::Quanx)
    } else if n == "clash_domain"@ {
        Some(RulesetType::ClashDomain)
    } else if n == "clash_ipcidr"@ {
        Some(RulesetType::ClashIpcidr)
    } else if n == "clash_classical"@ {
        Some(RulesetType::ClashClassical)
    } else {
        None
    }
}

impl RulesetType {
    /// The dialect named by `s` without regard to case, or the message
    /// `Unknown ruleset type: ` followed by `s`.
    pub fn parse_name(s: &str) -> (r: Result<RulesetType, String>)
        ensures
            match dialect_of_name(fold_lower(s@)) {
                Some(t) => r == Ok::<RulesetType, String>(t),
                None => r matches Err(e) && e@ == "Unknown ruleset type: "@ + s@,
            },
    {
        let c = chars_of(s);
        let n = fold_lower_exec(c.as_slice());
        let n = n.as_slice();
        if eq_str(n, "surge") {
            Ok(RulesetType::Surge)
        } else if eq_str(n, "quanx") {
            Ok(RulesetType::Quanx)
        } else if eq_str(n, "clash_domain") {
            Ok(RulesetType::ClashDomain)
        } else if eq_str(n, "clash_ipcidr") {
            Ok(RulesetType::ClashIpcidr)
        } else if eq_str(n, "clash_classical") {
            Ok(RulesetType::ClashClassical)
        } else {
            let mut m: Vec<char> = Vec::new();
            push_str(&mut m, "Unknown ruleset type: ");
            push_str(&mut m, s);
            Err(string_of(m.as_slice()))
        }
    }
}

impl std::str::FromStr for RulesetType {
    type Err = String;

    fn from_str(s: &str) -> (r: Result<Self, Self::Err>)
        ensures
            match dialect_of_name(fold_lower(s@)) {
                Some(t) => r == Ok::<RulesetType, String>(t),
                None => r matches Err(e) && e@ == "Unknown ruleset type: "@ + s@,
            },
    {
        RulesetType::parse_name(s)
    }
}

/// The rule types that sing-box route rules take: the basic ones shared by
/// every client, and those of sing-box.
pub open spec fn is_singbox_rule_type(t: Seq<char>) -> bool {
    ||| t == "DOMAIN"@
    ||| t == "DOMAIN-SUFFIX"@
    ||| t == "DOMAIN-KEYWORD"@
    ||| t == "IP-CIDR"@
    ||| t == "SRC-IP-CIDR"@
    ||| t == "GEOIP"@
    ||| t == "MATCH"@
    ||| t == "FINAL"@
    ||| t == "IP-VERSION"@
    ||| t == "INBOUND"@
    ||| t == "PROTOCOL"@
    ||| t == "NETWORK"@
    ||| t == "GEOSITE"@
    ||| t == "SRC-GEOIP"@
    ||| t == "DOMAIN-REGEX"@
    ||| t == "PROCESS-NAME"@
    ||| t == "PROCESS-PATH"@
    ||| t == "PACKAGE-NAME"@
    ||| t == "PORT"@
    ||| t == "PORT-RANGE"@
    ||| t == "SRC-PORT"@
    ||| t == "SRC-PORT-RANGE"@
    ||| t == "USER"@
    ||| t == "USER-ID"@
}

/// Whether sing-box takes rules of type `t` (see [`is_singbox_rule_type`]).
pub fn singbox_rule_type(t: &[char]) -> (r: bool)
    ensures
        r == is_singbox_rule_type(t@),
{
    eq_str(t, "DOMAIN") || eq_str(t, "DOMAIN-SUFFIX") || eq_str(t, "DOMAIN-KEYWORD") || eq_str(
        t,
        "IP-CIDR",
    ) || eq_str(t, "SRC-IP-CIDR") || eq_str(t, "GEOIP") || eq_str(t, "MATCH") || eq_str(t, "FINAL")
        || eq_str(t, "IP-VERSION") || eq_str(t, "INBOUND") || eq_str(t, "PROTOCOL") || eq_str(
        t,
        "NETWORK",
    ) || eq_str(t, "GEOSITE") || eq_str(t, "SRC-GEOIP") || eq_str(t, "DOMAIN-REGEX") || eq_str(
        t,
        "PROCESS-NAME",
    ) || eq_str(t, "PROCESS-PATH") || eq_str(t, "PACKAGE-NAME") || eq_str(t, "PORT") || eq_str(
        t,
        "PORT-RANGE",
    ) || eq_str(t, "SRC-PORT") || eq_str(t, "SRC-PORT-RANGE") || eq_str(t, "USER") || eq_str(
        t,
        "USER-ID",
    )
}

} // verus!

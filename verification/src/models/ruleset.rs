//! Rulesets: where a group's rules come from, of which dialect, and their text.
use crate::text::{chars_of, has_prefix, ov, starts_with_str};
use vstd::prelude::*;

verus! {

/// Dialect of a ruleset.
#[derive(Debug, Clone, Copy, PartialEq, Eq, Structural)]
pub enum RulesetType {
    Surge,
    Quanx,
    ClashDomain,
    ClashIpcidr,
    ClashClassical,
}

impl Default for RulesetType {
    fn default() -> (r: Self)
        ensures
            r == RulesetType::Surge,
    {
        RulesetType::Surge
    }
}

/// The dialect named by the prefix of a ruleset URL, if any: `clash-domain:`,
/// `clash-ipcidr:`, `clash-classical:`, `quanx:` or `surge:`.
pub open spec fn ruleset_type_of_url(url: Seq<char>) -> Option<RulesetType> {
    if has_prefix(url, "clash-domain:"@) {
        Some(RulesetType::ClashDomain)
    } else if has_prefix(url, "clash-ipcidr:"@) {
        Some(RulesetType::ClashIpcidr)
    } else if has_prefix(url, "clash-classical:"@) {
        Some(RulesetType::ClashClassical)
    } else if has_prefix(url, "quanx:"@) {
        Some(RulesetType::Quanx)
    } else if has_prefix(url, "surge:"@) {
        Some(RulesetType::Surge)
    } else {
        None
    }
}

/// Finds the dialect of a ruleset from the prefix of its URL.
pub fn get_ruleset_type_from_url(url: &str) -> (r: Option<RulesetType>)
    ensures
        r == ruleset_type_of_url(url@),
{
    let u = chars_of(url);
    if starts_with_str(u.as_slice(), "clash-domain:") {
        Some(RulesetType::ClashDomain)
    } else if starts_with_str(u.as_slice(), "clash-ipcidr:") {
        Some(RulesetType::ClashIpcidr)
    } else if starts_with_str(u.as_slice(), "clash-classical:") {
        Some(RulesetType::ClashClassical)
    } else if starts_with_str(u.as_slice(), "quanx:") {
        Some(RulesetType::Quanx)
    } else if starts_with_str(u.as_slice(), "surge:") {
        Some(RulesetType::Surge)
    } else {
        None
    }
}

/// The dialect prefixes exclude one another: no URL carries two of them, so
/// the dialect found does not depend on the order in which they are tried.
pub proof fn law_ruleset_prefixes_exclusive(url: Seq<char>)
    ensures
        ({
            let ps = seq![
                "clash-domain:"@,
                "clash-ipcidr:"@,
                "clash-classical:"@,
                "quanx:"@,
                "surge:"@,
            ];
            forall|i: int, j: int|
                0 <= i < 5 && 0 <= j < 5 && i != j ==> !(has_prefix(url, #[trigger] ps[i])
                    && has_prefix(url, #[trigger] ps[j]))
        }),
{
    reveal_strlit("clash-domain:");
    reveal_strlit("clash-ipcidr:");
    reveal_strlit("clash-classical:");
    reveal_strlit("quanx:");
    reveal_strlit("surge:");
    let ps = seq!["clash-domain:"@, "clash-ipcidr:"@, "clash-classical:"@, "quanx:"@, "surge:"@];
    assert forall|i: int, j: int|
        0 <= i < 5 && 0 <= j < 5 && i != j implies !(has_prefix(url, #[trigger] ps[i])
        && has_prefix(url, #[trigger] ps[j])) by {
        if has_prefix(url, ps[i]) && has_prefix(url, ps[j]) {
            let k: int = if (i <= 2 && j <= 2) { 6 } else { 0 };
            assert(url.take(ps[i].len() as int)[k] == url[k]);
            assert(url.take(ps[j].len() as int)[k] == url[k]);
            assert(ps[i][k] != ps[j][k]);
        }
    }
}

/// A ruleset reference in the configuration: target group, source and
/// update interval.
#[derive(Debug, Clone, Default, PartialEq)]
pub struct RulesetConfig {
    pub group: String,
    pub url: String,
    pub interval: u32,
}

/// A ruleset with its source and, once fetched, its text. Each value owns
/// its text: a clone is a separate copy, and setting the text of one (see
/// [`RulesetContent::set_rule_content`]) leaves its clones as they were.
#[derive(Debug, Clone)]
pub struct RulesetContent {
    /// Group the rules route to.
    pub group: String,
    /// Source path or URL.
    pub rule_path: String,
    /// Source path or URL with its dialect prefix.
    pub rule_path_typed: String,
    /// Dialect of the rules.
    pub rule_type: RulesetType,
    /// The rules' text, once fetched.
    pub rule_content: Option<String>,
    /// Seconds between refreshes.
    pub update_interval: u32,
}

/// The text a ruleset yields: its content, or empty before any was set.
pub open spec fn content_text(r: &RulesetContent) -> Seq<char> {
    match r.rule_content {
        Some(c) => c@,
        None => Seq::empty(),
    }
}

impl RulesetContent {
    /// A ruleset from the given source for the given group, with no content yet.
    pub fn new(rule_path: &str, group: &str) -> (r: Self)
        ensures
            r.group@ == group@,
            r.rule_path@ == rule_path@,
            r.rule_path_typed@ == rule_path@,
            r.rule_type == RulesetType::Surge,
            r.rule_content is None,
            r.update_interval == 0,
    {
        RulesetContent {
            group: group.to_owned(),
            rule_path: rule_path.to_owned(),
            rule_path_typed: rule_path.to_owned(),
            rule_type: RulesetType::default(),
            rule_content: None,
            update_interval: 0,
        }
    }

    /// The rules' text; empty when none has been set.
    pub fn get_rule_content(&self) -> (r: String)
        ensures
            r@ == content_text(self),
    {
        match &self.rule_content {
            Some(c) => c.clone(),
            None => String::new(),
        }
    }

    /// Sets the rules' text; nothing else changes.
    pub fn set_rule_content(&mut self, content: &str)
        ensures
            ov(final(self).rule_content) == Some(content@),
            final(self).group == old(self).group,
            final(self).rule_path == old(self).rule_path,
            final(self).rule_path_typed == old(self).rule_path_typed,
            final(self).rule_type == old(self).rule_type,
            final(self).update_interval == old(self).update_interval,
    {
        self.rule_content = Some(content.to_owned());
    }

    /// Whether any text has been set.
    pub fn has_rule_content(&self) -> (r: bool)
        ensures
            r == (self.rule_content is Some),
    {
        self.rule_content.is_some()
    }
}

/// A ruleset with no source whose text is `content`.
pub fn parse_ruleset(content: &str, group: &str) -> (r: RulesetContent)
    ensures
        r.group@ == group@,
        r.rule_path@ == Seq::<char>::empty(),
        r.rule_path_typed@ == Seq::<char>::empty(),
        r.rule_type == RulesetType::Surge,
        ov(r.rule_content) == Some(content@),
        content_text(&r) == content@,
        r.update_interval == 0,
{
    let mut ruleset = RulesetContent::new("", group);
    proof {
        reveal_strlit("");
    }
    ruleset.set_rule_content(content);
    ruleset
}

/// Reading a ruleset's text gives back what was last set, and a ruleset with
/// text set reports that it has content: for any `after` that setting
/// `content` on `before` may give (the contract of
/// [`RulesetContent::set_rule_content`]), the text read is `content` and the
/// source, group, dialect and interval are those of `before`.
pub proof fn law_ruleset_read_after_write(before: RulesetContent, after: RulesetContent, content: Seq<char>)
    requires
        ov(after.rule_content) == Some(content),
        after.group == before.group,
        after.rule_path == before.rule_path,
        after.rule_path_typed == before.rule_path_typed,
        after.rule_type == before.rule_type,
        after.update_interval == before.update_interval,
    ensures
        content_text(&after) == content,
        after.rule_content is Some,
        after.group@ == before.group@ && after.rule_path@ == before.rule_path@,
        after.rule_type == before.rule_type,
{
}

} // verus!

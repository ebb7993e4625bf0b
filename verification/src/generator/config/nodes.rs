//! The nodes of a conversion before they are written: renamed by rules,
//! given emoji, and filtered by remark.
use super::group::node_chosen;
use crate::models::proxy::Proxy;
use crate::models::regex_match_config::{rename_remark, renamed, RegexMatchConfig};
use crate::text::{chars_of, push_str, string_of};
use crate::utils::matcher::{apply_matcher, matcher_fits, reg_find};
use vstd::prelude::*;

verus! {

/// Whether a rule chooses a node (see [`node_chosen`]).
pub fn rule_chooses(rule: &str, node: &Proxy) -> (r: bool)
    requires
        matcher_fits(rule@, *node),
    ensures
        r == node_chosen(rule@, *node),
{
    let (passes, rest) = apply_matcher(rule, node);
    passes && (rest.as_str().is_empty() || reg_find(node.remark.as_str(), rest.as_str()))
}

/// Every node with its remark renamed by `rules` in turn (see [`renamed`]),
/// all else as it was.
pub fn apply_remark_rules(rules: &Vec<RegexMatchConfig>, nodes: &mut Vec<Proxy>)
    ensures
        final(nodes)@.len() == old(nodes)@.len(),
        forall|i: int|
            0 <= i < old(nodes)@.len() ==> (#[trigger] final(nodes)@[i]).remark@ == renamed(
                rules@,
                old(nodes)@[i].remark@,
            ) && final(nodes)@[i] == (Proxy { remark: final(nodes)@[i].remark, ..old(nodes)@[i] }),
{
    let ghost orig = nodes@;
    let mut i: usize = 0;
    while i < nodes.len()
        invariant
            i <= nodes@.len(),
            nodes@.len() == orig.len(),
            forall|k: int|
                0 <= k < i ==> (#[trigger] nodes@[k]).remark@ == renamed(rules@, orig[k].remark@) && nodes@[k]
                    == (Proxy { remark: nodes@[k].remark, ..orig[k] }),
            forall|k: int| i <= k < orig.len() ==> #[trigger] nodes@[k] == orig[k],
        decreases orig.len() - i,
    {
        let mut n = nodes.remove(i);
        let r = rename_remark(rules, n.remark.as_str());
        n.remark = r;
        nodes.insert(i, n);
        i = i + 1;
    }
}

/// The emoji the first rule with an emoji that chooses the node gives it.
pub open spec fn emoji_of(rules: Seq<RegexMatchConfig>, node: Proxy) -> Option<Seq<char>>
    decreases rules.len(),
{
    if rules.len() == 0 {
        None
    } else if rules[0].replace@.len() > 0 && node_chosen(rules[0]._match@, node) {
        Some(rules[0].replace@)
    } else {
        emoji_of(rules.skip(1), node)
    }
}

/// A node's remark with its emoji (see [`emoji_of`]) and a space before
/// it, where a rule gives one.
pub open spec fn with_emoji(rules: Seq<RegexMatchConfig>, node: Proxy) -> Seq<char> {
    match emoji_of(rules, node) {
        Some(e) => e + " "@ + node.remark@,
        None => node.remark@,
    }
}

/// Every rule fits every node (see [`matcher_fits`]).
pub open spec fn rules_fit_nodes(rules: Seq<Seq<char>>, nodes: Seq<Proxy>) -> bool {
    forall|j: int, k: int| 0 <= j < rules.len() && 0 <= k < nodes.len() ==> matcher_fits(
        #[trigger] rules[j],
        #[trigger] nodes[k],
    )
}

/// The patterns of remark rules.
pub open spec fn rule_patterns(rules: Seq<RegexMatchConfig>) -> Seq<Seq<char>> {
    rules.map_values(|r: RegexMatchConfig| r._match@)
}

/// A node's remark with its emoji (see [`with_emoji`]).
pub fn emoji_remark(rules: &Vec<RegexMatchConfig>, node: &Proxy) -> (r: String)
    requires
        forall|j: int| 0 <= j < rules@.len() ==> matcher_fits(#[trigger] rules@[j]._match@, *node),
    ensures
        r@ == with_emoji(rules@, *node),
{
    let mut i: usize = 0;
    assert(rules@.skip(0) =~= rules@);
    while i < rules.len()
        invariant
            i <= rules@.len(),
            forall|j: int| 0 <= j < rules@.len() ==> matcher_fits(#[trigger] rules@[j]._match@, *node),
            emoji_of(rules@, *node) == emoji_of(rules@.skip(i as int), *node),
        decreases rules@.len() - i,
    {
        let ghost rest = rules@.skip(i as int);
        assert(rest[0] == rules@[i as int]);
        assert(rest.skip(1) =~= rules@.skip(i + 1));
        let rule = &rules[i];
        if !rule.replace.as_str().is_empty() && rule_chooses(rule._match.as_str(), node) {
            let mut v = chars_of(rule.replace.as_str());
            push_str(&mut v, " ");
            push_str(&mut v, node.remark.as_str());
            return string_of(v.as_slice());
        }
        i = i + 1;
    }
    assert(rules@.skip(i as int).len() == 0);
    string_of(chars_of(node.remark.as_str()).as_slice())
}

/// Every node with its emoji written before its remark (see
/// [`with_emoji`]), all else as it was.
pub fn add_node_emoji(rules: &Vec<RegexMatchConfig>, nodes: &mut Vec<Proxy>)
    requires
        rules_fit_nodes(rule_patterns(rules@), old(nodes)@),
    ensures
        final(nodes)@.len() == old(nodes)@.len(),
        forall|i: int|
            0 <= i < old(nodes)@.len() ==> (#[trigger] final(nodes)@[i]).remark@ == with_emoji(
                rules@,
                old(nodes)@[i],
            ) && final(nodes)@[i] == (Proxy { remark: final(nodes)@[i].remark, ..old(nodes)@[i] }),
{
    let ghost orig = nodes@;
    let mut i: usize = 0;
    while i < nodes.len()
        invariant
            i <= nodes@.len(),
            nodes@.len() == orig.len(),
            rules_fit_nodes(rule_patterns(rules@), orig),
            forall|k: int|
                0 <= k < i ==> (#[trigger] nodes@[k]).remark@ == with_emoji(rules@, orig[k]) && nodes@[k] == (
                Proxy { remark: nodes@[k].remark, ..orig[k] }),
            forall|k: int| i <= k < orig.len() ==> #[trigger] nodes@[k] == orig[k],
        decreases orig.len() - i,
    {
        let mut n = nodes.remove(i);
        assert(n == orig[i as int]);
        assert forall|j: int| 0 <= j < rules@.len() implies matcher_fits(#[trigger] rules@[j]._match@, n) by {
            assert(rule_patterns(rules@)[j] == rules@[j]._match@);
        }
        let r = emoji_remark(rules, &n);
        n.remark = r;
        nodes.insert(i, n);
        i = i + 1;
    }
}

/// Whether some rule of `rules` chooses the node.
pub open spec fn any_chooses(rules: Seq<Seq<char>>, node: Proxy) -> bool {
    exists|j: int| 0 <= j < rules.len() && #[trigger] node_chosen(rules[j], node)
}

/// Whether a node stays: no exclusion rule chooses it, and an inclusion
/// rule does where there are any.
pub open spec fn node_kept(node: Proxy, keep: Seq<Seq<char>>, drop: Seq<Seq<char>>) -> bool {
    !any_chooses(drop, node) && (keep.len() == 0 || any_chooses(keep, node))
}

/// The nodes that stay, in order (see [`node_kept`]).
pub open spec fn kept_nodes(nodes: Seq<Proxy>, keep: Seq<Seq<char>>, drop: Seq<Seq<char>>) -> Seq<Proxy>
    decreases nodes.len(),
{
    if nodes.len() == 0 {
        Seq::empty()
    } else if node_kept(nodes.last(), keep, drop) {
        kept_nodes(nodes.drop_last(), keep, drop).push(nodes.last())
    } else {
        kept_nodes(nodes.drop_last(), keep, drop)
    }
}

/// Whether some rule chooses the node (see [`any_chooses`]).
fn any_rule_chooses(rules: &Vec<String>, node: &Proxy) -> (r: bool)
    requires
        forall|j: int| 0 <= j < rules@.len() ==> matcher_fits(#[trigger] rules@[j]@, *node),
    ensures
        r == any_chooses(crate::text::string_views(rules@), *node),
{
    let ghost rv = crate::text::string_views(rules@);
    let mut j: usize = 0;
    while j < rules.len()
        invariant
            j <= rules@.len(),
            rv == crate::text::string_views(rules@),
            forall|a: int| 0 <= a < rules@.len() ==> matcher_fits(#[trigger] rules@[a]@, *node),
            forall|a: int| 0 <= a < j ==> !#[trigger] node_chosen(rv[a], *node),
        decreases rules@.len() - j,
    {
        if rule_chooses(rules[j].as_str(), node) {
            assert(node_chosen(rv[j as int], *node));
            return true;
        }
        j = j + 1;
    }
    false
}

/// The nodes that the remark filters keep (see [`kept_nodes`]): a node
/// goes where an exclusion rule (`drop`) chooses it, or where there are
/// inclusion rules (`keep`) and none chooses it.
pub fn filter_nodes(nodes: Vec<Proxy>, keep: &Vec<String>, drop: &Vec<String>) -> (r: Vec<Proxy>)
    requires
        rules_fit_nodes(crate::text::string_views(keep@), nodes@),
        rules_fit_nodes(crate::text::string_views(drop@), nodes@),
    ensures
        r@ == kept_nodes(nodes@, crate::text::string_views(keep@), crate::text::string_views(drop@)),
{
    let ghost orig = nodes@;
    let ghost inc = crate::text::string_views(keep@);
    let ghost exc = crate::text::string_views(drop@);
    let mut rest = nodes;
    let mut out: Vec<Proxy> = Vec::new();
    let mut k: usize = 0;
    let total = rest.len();
    assert(orig.skip(0) =~= orig);
    assert(orig.take(0) =~= Seq::<Proxy>::empty());
    while rest.len() > 0
        invariant
            k <= orig.len(),
            rest@ == orig.skip(k as int),
            rest@.len() + k == total,
            total == orig.len(),
            inc == crate::text::string_views(keep@),
            exc == crate::text::string_views(drop@),
            rules_fit_nodes(inc, orig),
            rules_fit_nodes(exc, orig),
            out@ == kept_nodes(orig.take(k as int), inc, exc),
        decreases rest@.len(),
    {
        let n = rest.remove(0);
        assert(n == orig[k as int]);
        assert(rest@ =~= orig.skip(k + 1));
        assert(orig.take(k + 1).drop_last() =~= orig.take(k as int));
        assert(orig.take(k + 1).last() == orig[k as int]);
        assert forall|j: int| 0 <= j < keep@.len() implies matcher_fits(#[trigger] keep@[j]@, n) by {
            assert(inc[j] == keep@[j]@);
        }
        assert forall|j: int| 0 <= j < drop@.len() implies matcher_fits(#[trigger] drop@[j]@, n) by {
            assert(exc[j] == drop@[j]@);
        }
        let excluded = any_rule_chooses(drop, &n);
        let included = keep.len() == 0 || any_rule_chooses(keep, &n);
        if !excluded && included {
            out.push(n);
        }
        k = k + 1;
    }
    assert(orig.skip(k as int).len() == 0);
    assert(orig.take(k as int) =~= orig);
    out
}

} // verus!

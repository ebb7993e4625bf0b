//! The members of proxy groups, chosen by rule.
use crate::models::extra_settings::ExtraSettings;
use crate::models::proxy::Proxy;
use crate::models::proxy_group_config::ProxyGroupConfig;
use crate::text::{chars_of, has_prefix, slice_chars, starts_with_str, string_of, string_views};
use crate::utils::matcher::{apply_matcher, apply_matcher_spec, matcher_fits, reg_find, reg_find_spec};
use vstd::prelude::*;

verus! {

/// Whether a node is chosen by a rule: it passes the rule's special part
/// and its remark matches what is left of the rule (everything where
/// nothing is left).
pub open spec fn node_chosen(rule: Seq<char>, node: Proxy) -> bool {
    let (passes, rest) = apply_matcher_spec(rule, node);
    passes && (rest.len() == 0 || reg_find_spec(node.remark@, rest))
}

/// The remarks of the nodes a rule chooses, in order.
pub open spec fn chosen_remarks(rule: Seq<char>, nodes: Seq<Proxy>) -> Seq<Seq<char>>
    decreases nodes.len(),
{
    if nodes.len() == 0 {
        Seq::empty()
    } else if node_chosen(rule, nodes.last()) {
        chosen_remarks(rule, nodes.drop_last()).push(nodes.last().remark@)
    } else {
        chosen_remarks(rule, nodes.drop_last())
    }
}

/// The entries a rule picks for a group: for `[]name`, where direct entries
/// are allowed, that name itself; nothing for a script rule of an
/// authorized request; else the remarks of the nodes it chooses.
pub open spec fn rule_choice(rule: Seq<char>, nodes: Seq<Proxy>, add_direct: bool, authorized: bool) -> Seq<
    Seq<char>,
> {
    if has_prefix(rule, "[]"@) && add_direct {
        seq![rule.skip(2)]
    } else if has_prefix(rule, "script:"@) && authorized {
        Seq::empty()
    } else {
        chosen_remarks(rule, nodes)
    }
}

/// Whether a rule is matched against the nodes (neither a direct entry
/// that may be added nor a script rule of an authorized request).
pub open spec fn matches_nodes(rule: Seq<char>, add_direct: bool, authorized: bool) -> bool {
    !(has_prefix(rule, "[]"@) && add_direct) && !(has_prefix(rule, "script:"@) && authorized)
}

/// The members a rule adds to a group on its own (see [`rule_choice`]),
/// with `DIRECT` where it is matched against the nodes, chooses none, and
/// direct entries are allowed.
pub open spec fn group_members(rule: Seq<char>, nodes: Seq<Proxy>, add_direct: bool, authorized: bool) -> Seq<
    Seq<char>,
> {
    if matches_nodes(rule, add_direct, authorized) && chosen_remarks(rule, nodes).len() == 0 && add_direct {
        seq!["DIRECT"@]
    } else {
        rule_choice(rule, nodes, add_direct, authorized)
    }
}

/// Adds to `filtered_nodelist` the entries that `rule` picks among
/// `nodelist` (see [`rule_choice`]); `ext` tells whether the request may
/// run scripts.
pub fn group_choose(
    rule: &str,
    nodelist: &[Proxy],
    filtered_nodelist: &mut Vec<String>,
    add_direct: bool,
    ext: &ExtraSettings,
)
    requires
        forall|i: int| 0 <= i < nodelist@.len() ==> matcher_fits(rule@, #[trigger] nodelist@[i]),
    ensures
        string_views(final(filtered_nodelist)@) == string_views(old(filtered_nodelist)@) + rule_choice(
            rule@,
            nodelist@,
            add_direct,
            ext.authorized,
        ),
{
    let rc = chars_of(rule);
    let ghost start = string_views(filtered_nodelist@);
    if starts_with_str(rc.as_slice(), "[]") && add_direct {
        proof {
            reveal_strlit("[]");
        }
        let rest = slice_chars(rc.as_slice(), 2, rc.len());
        filtered_nodelist.push(string_of(rest.as_slice()));
        assert(string_views(filtered_nodelist@) =~= start + seq![rule@.skip(2)]);
        return;
    }
    if starts_with_str(rc.as_slice(), "script:") && ext.authorized {
        assert(string_views(filtered_nodelist@) =~= start + Seq::<Seq<char>>::empty());
        return;
    }
    let mut i: usize = 0;
    assert(nodelist@.take(0) =~= Seq::<Proxy>::empty());
    assert(start + chosen_remarks(rule@, nodelist@.take(0)) =~= start);
    while i < nodelist.len()
        invariant
            i <= nodelist@.len(),
            forall|k: int| 0 <= k < nodelist@.len() ==> matcher_fits(rule@, #[trigger] nodelist@[k]),
            string_views(filtered_nodelist@) == start + chosen_remarks(rule@, nodelist@.take(i as int)),
        decreases nodelist@.len() - i,
    {
        assert(nodelist@.take(i + 1).drop_last() =~= nodelist@.take(i as int));
        assert(nodelist@.take(i + 1).last() == nodelist@[i as int]);
        let node = &nodelist[i];
        let (passes, rest) = apply_matcher(rule, node);
        if passes && (rest.as_str().is_empty() || reg_find(node.remark.as_str(), rest.as_str())) {
            let ghost before = string_views(filtered_nodelist@);
            filtered_nodelist.push(node.remark.clone());
            assert(string_views(filtered_nodelist@) =~= before.push(node.remark@));
        }
        i = i + 1;
    }
    assert(nodelist@.take(i as int) =~= nodelist@);
}

/// Adds to `filtered_nodelist` the members that `rule` gives a group among
/// `nodelist` (see [`group_members`]); `ext` tells whether the request may
/// run scripts.
pub fn group_generate(
    rule: &str,
    nodelist: &[Proxy],
    filtered_nodelist: &mut Vec<String>,
    add_direct: bool,
    ext: &ExtraSettings,
)
    requires
        forall|i: int| 0 <= i < nodelist@.len() ==> matcher_fits(rule@, #[trigger] nodelist@[i]),
    ensures
        string_views(final(filtered_nodelist)@) == string_views(old(filtered_nodelist)@) + group_members(
            rule@,
            nodelist@,
            add_direct,
            ext.authorized,
        ),
{
    let ghost start = string_views(filtered_nodelist@);
    let before_len = filtered_nodelist.len();
    group_choose(rule, nodelist, filtered_nodelist, add_direct, ext);
    let ghost mid = string_views(filtered_nodelist@);
    let ghost choice = rule_choice(rule@, nodelist@, add_direct, ext.authorized);
    assert(mid.len() == filtered_nodelist@.len());
    assert(start.len() == before_len);
    let rc = chars_of(rule);
    proof {
        reveal_strlit("[]");
        reveal_strlit("script:");
    }
    let matched = !(starts_with_str(rc.as_slice(), "[]") && add_direct) && !(starts_with_str(
        rc.as_slice(),
        "script:",
    ) && ext.authorized);
    if matched && filtered_nodelist.len() == before_len && add_direct {
        assert(choice.len() == 0);
        assert(mid =~= start);
        filtered_nodelist.push("DIRECT".to_owned());
        assert(string_views(filtered_nodelist@) =~= mid.push("DIRECT"@));
        assert(string_views(filtered_nodelist@) =~= start + seq!["DIRECT"@]);
    }
}

/// A rule that may add direct entries always gives its group a member,
/// but for a script rule of an authorized request.
pub proof fn law_direct_rule_gives_member(rule: Seq<char>, nodes: Seq<Proxy>, authorized: bool)
    requires
        !(has_prefix(rule, "script:"@) && authorized),
    ensures
        group_members(rule, nodes, true, authorized).len() > 0,
{
}

/// The members that the rules of a group give it, rule by rule.
pub open spec fn members_of_rules(
    rules: Seq<Seq<char>>,
    nodes: Seq<Proxy>,
    add_direct: bool,
    authorized: bool,
) -> Seq<Seq<char>>
    decreases rules.len(),
{
    if rules.len() == 0 {
        Seq::empty()
    } else {
        members_of_rules(rules.drop_last(), nodes, add_direct, authorized) + rule_choice(
            rules.last(),
            nodes,
            add_direct,
            authorized,
        )
    }
}

/// The members that the rules of a group (its `proxies`) give it among
/// `nodes` (see [`members_of_rules`]).
pub fn generate_members(rules: &Vec<String>, nodes: &[Proxy], add_direct: bool, ext: &ExtraSettings) -> (r: Vec<
    String,
>)
    requires
        forall|i: int, j: int|
            0 <= i < rules@.len() && 0 <= j < nodes@.len() ==> matcher_fits(
                #[trigger] rules@[i]@,
                #[trigger] nodes@[j],
            ),
    ensures
        string_views(r@) == members_of_rules(string_views(rules@), nodes@, add_direct, ext.authorized),
{
    let ghost rv = string_views(rules@);
    let mut out: Vec<String> = Vec::new();
    let mut i: usize = 0;
    assert(rv.take(0) =~= Seq::<Seq<char>>::empty());
    while i < rules.len()
        invariant
            i <= rules@.len(),
            rv == string_views(rules@),
            forall|a: int, b: int|
                0 <= a < rules@.len() && 0 <= b < nodes@.len() ==> matcher_fits(
                    #[trigger] rules@[a]@,
                    #[trigger] nodes@[b],
                ),
            string_views(out@) == members_of_rules(rv.take(i as int), nodes@, add_direct, ext.authorized),
        decreases rules@.len() - i,
    {
        assert(rv.take(i + 1).drop_last() =~= rv.take(i as int));
        assert(rv.take(i + 1).last() == rules@[i as int]@);
        assert forall|k: int| 0 <= k < nodes@.len() implies matcher_fits(rules@[i as int]@, #[trigger] nodes@[k]) by {
            assert(matcher_fits(rules@[i as int]@, nodes@[k]));
        }
        group_choose(rules[i].as_str(), nodes, &mut out, add_direct, ext);
        i = i + 1;
    }
    assert(rv.take(i as int) =~= rv);
    out
}

/// Every rule of the group fits every node (see [`matcher_fits`]).
pub open spec fn group_fits(g: ProxyGroupConfig, nodes: Seq<Proxy>) -> bool {
    forall|j: int, k: int|
        0 <= j < g.proxies@.len() && 0 <= k < nodes.len() ==> matcher_fits(
            #[trigger] g.proxies@[j]@,
            #[trigger] nodes[k],
        )
}

/// The members that the rules of the group `g` give it among `nodes`.
pub open spec fn rule_members(g: ProxyGroupConfig, nodes: Seq<Proxy>, add_direct: bool, authorized: bool) -> Seq<
    Seq<char>,
> {
    members_of_rules(string_views(g.proxies@), nodes, add_direct, authorized)
}

/// The members that the rules of `group` give it among `nodes` (see
/// [`rule_members`]).
pub fn group_rule_members(group: &ProxyGroupConfig, nodes: &[Proxy], add_direct: bool, ext: &ExtraSettings) -> (r: Vec<
    String,
>)
    requires
        group_fits(*group, nodes@),
    ensures
        string_views(r@) == rule_members(*group, nodes@, add_direct, ext.authorized),
{
    generate_members(&group.proxies, nodes, add_direct, ext)
}

} // verus!

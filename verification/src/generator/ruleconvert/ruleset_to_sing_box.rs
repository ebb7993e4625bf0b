//! Rulesets as sing-box route rules.
use super::convert_ruleset::{
    before_sub, before_sub_exec, convert_ruleset, converted_ruleset, entries_unquotable,
    payload_header,
};
use super::ruleset::{is_singbox_rule_type, singbox_rule_type};
use crate::models::ruleset::{content_text, RulesetContent, RulesetType};
use crate::text::{
    chars_of, contains_seq, contains_str, has_prefix, replace_all, replace_str, slice_chars, split,
    split_char, starts_with_str, std_lowercase, string_of, string_views, to_lowercase_str, trim,
    trim_chars, views,
};
use vstd::prelude::*;

verus! {

/// A value of a sing-box route rule.
#[derive(Debug, Clone)]
pub enum SingBoxValue {
    Text(String),
    List(Vec<String>),
}

/// The mathematical form of a [`SingBoxValue`].
pub enum SingBoxView {
    Text(Seq<char>),
    List(Seq<Seq<char>>),
}

impl View for SingBoxValue {
    type V = SingBoxView;

    open spec fn view(&self) -> SingBoxView {
        match self {
            SingBoxValue::Text(s) => SingBoxView::Text(s@),
            SingBoxValue::List(v) => SingBoxView::List(string_views(v@)),
        }
    }
}

/// A route rule as keys (each once) and values.
pub open spec fn rule_view(r: Seq<(String, SingBoxValue)>) -> Seq<(Seq<char>, SingBoxView)> {
    r.map_values(|e: (String, SingBoxValue)| (e.0@, e.1@))
}

/// A list of route rules as keys and values.
pub open spec fn rules_view(rs: Seq<Vec<(String, SingBoxValue)>>) -> Seq<Seq<(Seq<char>, SingBoxView)>> {
    rs.map_values(|r: Vec<(String, SingBoxValue)>| rule_view(r@))
}

/// The route rules made from rulesets, and the outbound of the final rule
/// (empty where no ruleset names one).
#[derive(Debug)]
pub struct SingBoxRoute {
    pub rules: Vec<Vec<(String, SingBoxValue)>>,
    pub final_outbound: String,
}

// ---------------------------------------------------------------------------
// Specifications
// ---------------------------------------------------------------------------
/// The index of the first pair with key `k`, or -1.
pub open spec fn key_pos<V>(m: Seq<(Seq<char>, V)>, k: Seq<char>) -> int
    decreases m.len(),
{
    if m.len() == 0 {
        -1
    } else if m[0].0 == k {
        0
    } else if key_pos(m.drop_first(), k) < 0 {
        -1
    } else {
        key_pos(m.drop_first(), k) + 1
    }
}

/// A map insertion on a list of pairs: the pair with key `k` gets value `v`,
/// or `(k, v)` goes last.
pub open spec fn map_put<V>(m: Seq<(Seq<char>, V)>, k: Seq<char>, v: V) -> Seq<(Seq<char>, V)> {
    if key_pos(m, k) >= 0 {
        m.update(key_pos(m, k), (k, v))
    } else {
        m.push((k, v))
    }
}

/// Adds `v` to the list under key `k`, starting the list where there is none.
pub open spec fn list_append(m: Seq<(Seq<char>, Seq<Seq<char>>)>, k: Seq<char>, v: Seq<char>) -> Seq<
    (Seq<char>, Seq<Seq<char>>),
> {
    if key_pos(m, k) >= 0 {
        m.update(key_pos(m, k), (k, m[key_pos(m, k)].1.push(v)))
    } else {
        m.push((k, seq![v]))
    }
}

/// The lists of a rule object as rule values.
pub open spec fn lists_as_values(m: Seq<(Seq<char>, Seq<Seq<char>>)>) -> Seq<(Seq<char>, SingBoxView)> {
    m.map_values(|e: (Seq<char>, Seq<Seq<char>>)| (e.0, SingBoxView::List(e.1)))
}

/// The sing-box name of a rule type: lowered, `-` as `_`, `ip_cidr6` as
/// `ip_cidr` and `src_` as `source_`.
pub open spec fn sb_type_name(t: Seq<char>) -> Seq<char> {
    replace_all(
        replace_all(replace_all(std_lowercase(t), "-"@, "_"@), "ip_cidr6"@, "ip_cidr"@),
        "src_"@,
        "source_"@,
    )
}

/// Whether the rule count `total` has reached the limit `max` (0: none).
pub open spec fn limit_reached(total: nat, max: nat) -> bool {
    max > 0 && total >= max
}

/// What has been made so far: the rules, how many rules were counted, and
/// the outbound of the final rule.
pub struct SbState {
    pub rules: Seq<Seq<(Seq<char>, SingBoxView)>>,
    pub total: nat,
    pub final_outbound: Seq<char>,
}

/// The rule of an inline rule `line` (what follows `[]`) for `group`: a
/// `FINAL` or `MATCH` rule names the final outbound; a rule of fewer than two
/// parts is dropped.
pub open spec fn inline_step(st: SbState, line: Seq<char>, group: Seq<char>) -> SbState {
    if has_prefix(line, "FINAL"@) || has_prefix(line, "MATCH"@) {
        SbState { final_outbound: group, ..st }
    } else {
        let parts = split_char(line, ',');
        if parts.len() < 2 {
            st
        } else {
            let t = sb_type_name(parts[0]);
            let v = std_lowercase(parts[1]);
            let rule = if t == "match"@ || t == "final"@ {
                seq![("outbound"@, SingBoxView::Text(v))]
            } else {
                map_put(seq![(t, SingBoxView::Text(v))], "outbound"@, SingBoxView::Text(group))
            };
            SbState { rules: st.rules.push(rule), total: st.total + 1, ..st }
        }
    }
}

/// The type and value that one line of a converted ruleset adds; `None`
/// for an empty line, a comment, a line of fewer than two parts or of a type
/// that sing-box does not take.
pub open spec fn line_entry(line: Seq<char>) -> Option<(Seq<char>, Seq<char>)> {
    let l = trim(line);
    if l.len() == 0 || l[0] == ';' || l[0] == '#' || has_prefix(l, "//"@) {
        None
    } else {
        let l2 = if contains_seq(l, "//"@) {
            trim(before_sub(l, "//"@))
        } else {
            l
        };
        let parts = split_char(l2, ',');
        if parts.len() < 2 || !is_singbox_rule_type(parts[0]) {
            None
        } else {
            Some((sb_type_name(parts[0]), std_lowercase(parts[1])))
        }
    }
}

/// The rule object and count after the lines `lines`, stopping at the limit.
pub open spec fn lines_fold(lines: Seq<Seq<char>>, total: nat, max: nat) -> (
    Seq<(Seq<char>, Seq<Seq<char>>)>,
    nat,
)
    decreases lines.len(),
{
    if lines.len() == 0 {
        (Seq::empty(), total)
    } else {
        let (o, t) = lines_fold(lines.drop_last(), total, max);
        if limit_reached(t, max) {
            (o, t)
        } else {
            match line_entry(lines.last()) {
                Some(e) => (list_append(o, e.0, e.1), t + 1),
                None => (o, t),
            }
        }
    }
}

/// The state after one ruleset: an empty one adds nothing, an inline one
/// (starting with `[]`) one rule, and any other one rule that gathers the
/// values of its converted lines by type, routed to its group.
pub open spec fn ruleset_step(st: SbState, r: RulesetContent, max: nat) -> SbState {
    let content = content_text(&r);
    if limit_reached(st.total, max) || content.len() == 0 {
        st
    } else if has_prefix(content, "[]"@) {
        inline_step(st, content.skip(2), r.group@)
    } else {
        let (obj, total) = lines_fold(
            split_char(converted_ruleset(content, r.rule_type), '\n'),
            st.total,
            max,
        );
        if obj.len() == 0 {
            SbState { total, ..st }
        } else {
            SbState {
                rules: st.rules.push(
                    map_put(lists_as_values(obj), "outbound"@, SingBoxView::Text(r.group@)),
                ),
                total,
                ..st
            }
        }
    }
}

/// The state after the rulesets `rs`, in order.
pub open spec fn rulesets_fold(rs: Seq<RulesetContent>, max: nat, init: SbState) -> SbState
    decreases rs.len(),
{
    if rs.len() == 0 {
        init
    } else {
        ruleset_step(rulesets_fold(rs.drop_last(), max, init), rs.last(), max)
    }
}

/// The rules that come before those of the rulesets: the Clash mode rules
/// where they are asked for, and the DNS rule.
pub open spec fn initial_rules(add_clash_modes: bool) -> Seq<Seq<(Seq<char>, SingBoxView)>> {
    (if add_clash_modes {
        seq![
            seq![("clash_mode"@, SingBoxView::Text("Global"@)), ("outbound"@, SingBoxView::Text("GLOBAL"@))],
            seq![("clash_mode"@, SingBoxView::Text("Direct"@)), ("outbound"@, SingBoxView::Text("DIRECT"@))],
        ]
    } else {
        Seq::empty()
    }) + seq![seq![("protocol"@, SingBoxView::Text("dns"@)), ("outbound"@, SingBoxView::Text("dns-out"@))]]
}

/// The state before any ruleset.
pub open spec fn initial_state(add_clash_modes: bool) -> SbState {
    SbState { rules: initial_rules(add_clash_modes), total: 0, final_outbound: Seq::empty() }
}

/// A ruleset that the conversion can read: empty, inline, of the Surge
/// dialect, or a Clash ruleset whose entries can all be unquoted.
pub open spec fn ruleset_convertible(r: RulesetContent) -> bool {
    let content = content_text(&r);
    ||| content.len() == 0
    ||| has_prefix(content, "[]"@)
    ||| r.rule_type == RulesetType::Surge
    ||| (payload_header(content) && entries_unquotable(content))
}

/// Every ruleset that the conversion reaches before the limit is readable.
pub open spec fn rulesets_convertible(rs: Seq<RulesetContent>, max: nat, add_clash_modes: bool) -> bool {
    forall|i: int|
        0 <= i < rs.len() && !limit_reached(
            rulesets_fold(rs.take(i), max, initial_state(add_clash_modes)).total,
            max,
        ) ==> #[trigger] ruleset_convertible(rs[i])
}

// ---------------------------------------------------------------------------
// Executable functions
// ---------------------------------------------------------------------------
/// The rule count as kept while converting: nothing without a limit, else
/// the count up to the limit.
pub open spec fn kept_count(total: nat, max: nat) -> nat {
    if max == 0 {
        0
    } else if total < max {
        total
    } else {
        max
    }
}

/// Counts one more rule (see [`kept_count`]).
fn count_one(count: u32, max: u32) -> (r: u32)
    requires
        max == 0 || count <= max,
    ensures
        forall|t: nat| count == #[trigger] kept_count(t, max as nat) ==> r == kept_count(t + 1, max as nat),
        max == 0 || r <= max,
{
    if max > 0 && count < max {
        count + 1
    } else {
        count
    }
}

/// The sing-box name of a rule type (see [`sb_type_name`]).
fn sb_type_name_exec(t: &[char]) -> (r: String)
    ensures
        r@ == sb_type_name(t@),
{
    let s = string_of(t);
    let lowered = to_lowercase_str(s.as_str());
    proof {
        reveal_strlit("-");
        reveal_strlit("ip_cidr6");
        reveal_strlit("src_");
    }
    let a = replace_str(lowered.as_str(), "-", "_");
    let b = replace_str(a.as_str(), "ip_cidr6", "ip_cidr");
    replace_str(b.as_str(), "src_", "source_")
}

/// The lower-case form of a text (`str::to_lowercase`).
fn lower_exec(t: &[char]) -> (r: String)
    ensures
        r@ == std_lowercase(t@),
{
    let s = string_of(t);
    to_lowercase_str(s.as_str())
}

/// The index of the first pair with key `k`.
fn find_key<V>(m: &Vec<(String, V)>, k: &String) -> (r: Option<usize>)
    ensures
        match r {
            Some(i) => i < m@.len() && key_pos(m@.map_values(|e: (String, V)| (e.0@, e.1)), k@)
                == i,
            None => key_pos(m@.map_values(|e: (String, V)| (e.0@, e.1)), k@) < 0,
        },
{
    let ghost mv = m@.map_values(|e: (String, V)| (e.0@, e.1));
    let mut i: usize = 0;
    assert(mv.skip(0) =~= mv);
    while i < m.len()
        invariant
            i <= m@.len(),
            mv == m@.map_values(|e: (String, V)| (e.0@, e.1)),
            key_pos(mv, k@) == (if key_pos(mv.skip(i as int), k@) < 0 {
                -1
            } else {
                key_pos(mv.skip(i as int), k@) + i
            }),
        decreases m@.len() - i,
    {
        assert(mv.skip(i as int).drop_first() =~= mv.skip(i + 1));
        assert(mv.skip(i as int)[0] == mv[i as int]);
        if m[i].0 == *k {
            return Some(i);
        }
        i = i + 1;
    }
    assert(mv.skip(i as int).len() == 0);
    None
}

/// The keys and lists of a rule object under construction.
pub open spec fn obj_view(m: Seq<(String, Vec<String>)>) -> Seq<(Seq<char>, Seq<Seq<char>>)> {
    m.map_values(|e: (String, Vec<String>)| (e.0@, string_views(e.1@)))
}

/// Adds a value to the list under a key (see [`list_append`]).
fn append_value(m: &mut Vec<(String, Vec<String>)>, k: String, v: String)
    ensures
        obj_view(final(m)@) == list_append(obj_view(old(m)@), k@, v@),
{
    let ghost before = obj_view(m@);
    assert(m@.map_values(|e: (String, Vec<String>)| (e.0@, e.1)).map_values(
        |e: (Seq<char>, Vec<String>)| e.0,
    ) =~= before.map_values(|e: (Seq<char>, Seq<Seq<char>>)| e.0));
    match find_key(m, &k) {
        Some(i) => {
            proof {
                lemma_key_pos_same_keys(
                    m@.map_values(|e: (String, Vec<String>)| (e.0@, e.1)),
                    before,
                    k@,
                );
            }
            proof {
                lemma_key_pos_found(before, k@);
            }
            let ghost old_m = m@;
            let ghost vv = v@;
            let mut entry = m.remove(i);
            let ghost old_list = entry.1@;
            entry.1.push(v);
            assert(string_views(entry.1@) =~= string_views(old_list).push(vv));
            m.insert(i, entry);
            assert(m@ =~= old_m.update(i as int, entry));
            assert(obj_view(m@) =~= list_append(before, k@, vv));
        },
        None => {
            proof {
                lemma_key_pos_same_keys(
                    m@.map_values(|e: (String, Vec<String>)| (e.0@, e.1)),
                    before,
                    k@,
                );
            }
            let ghost v_view = v@;
            m.push((k, vec![v]));
            assert(string_views(m@.last().1@) =~= seq![v_view]);
            assert(obj_view(m@) =~= list_append(before, k@, v@));
        },
    }
}

/// A key that is found is at the index found.
proof fn lemma_key_pos_found<V>(m: Seq<(Seq<char>, V)>, k: Seq<char>)
    ensures
        key_pos(m, k) >= 0 ==> key_pos(m, k) < m.len() && m[key_pos(m, k)].0 == k,
        key_pos(m, k) >= -1,
    decreases m.len(),
{
    if m.len() > 0 {
        lemma_key_pos_found(m.drop_first(), k);
    }
}

/// Two lists of pairs with the same keys at the same places find a key at
/// the same place.
proof fn lemma_key_pos_same_keys<V, W>(a: Seq<(Seq<char>, V)>, b: Seq<(Seq<char>, W)>, k: Seq<char>)
    requires
        a.len() == b.len(),
        forall|i: int| 0 <= i < a.len() ==> a[i].0 == b[i].0,
    ensures
        key_pos(a, k) == key_pos(b, k),
    decreases a.len(),
{
    if a.len() > 0 {
        lemma_key_pos_same_keys(a.drop_first(), b.drop_first(), k);
    }
}

/// Sets the value under a key (see [`map_put`]).
fn put_value(m: &mut Vec<(String, SingBoxValue)>, k: String, v: SingBoxValue)
    ensures
        rule_view(final(m)@) == map_put(rule_view(old(m)@), k@, v@),
{
    let ghost before = rule_view(m@);
    proof {
        lemma_key_pos_same_keys(m@.map_values(|e: (String, SingBoxValue)| (e.0@, e.1)), before, k@);
    }
    match find_key(m, &k) {
        Some(i) => {
            let ghost kv = k@;
            let ghost vv = v@;
            m.set(i, (k, v));
            assert(rule_view(m@) =~= before.update(i as int, (kv, vv)));
        },
        None => {
            let ghost kv = k@;
            let ghost vv = v@;
            m.push((k, v));
            assert(rule_view(m@) =~= before.push((kv, vv)));
        },
    }
}

/// The rule object's lists as rule values (see [`lists_as_values`]).
fn lists_to_values(m: Vec<(String, Vec<String>)>) -> (r: Vec<(String, SingBoxValue)>)
    ensures
        rule_view(r@) == lists_as_values(obj_view(m@)),
{
    let mut r: Vec<(String, SingBoxValue)> = Vec::new();
    let mut i: usize = 0;
    while i < m.len()
        invariant
            i <= m@.len(),
            rule_view(r@) == lists_as_values(obj_view(m@)).take(i as int),
        decreases m@.len() - i,
    {
        let name = m[i].0.clone();
        let mut items: Vec<String> = Vec::new();
        let mut j: usize = 0;
        while j < m[i].1.len()
            invariant
                i < m@.len(),
                j <= m@[i as int].1@.len(),
                items@ == m@[i as int].1@.take(j as int),
            decreases m@[i as int].1@.len() - j,
        {
            items.push(m[i].1[j].clone());
            j = j + 1;
            assert(items@ =~= m@[i as int].1@.take(j as int));
        }
        assert(m@[i as int].1@.take(j as int) =~= m@[i as int].1@);
        let ghost before = rule_view(r@);
        assert(string_views(items@) == string_views(m@[i as int].1@));
        assert(name@ == m@[i as int].0@);
        r.push((name, SingBoxValue::List(items)));
        assert(rule_view(r@) =~= before.push(lists_as_values(obj_view(m@))[i as int]));
        i = i + 1;
        assert(rule_view(r@) =~= lists_as_values(obj_view(m@)).take(i as int));
    }
    assert(lists_as_values(obj_view(m@)).take(i as int) =~= lists_as_values(obj_view(m@)));
    r
}

/// One rule of two text fields.
fn text_rule(k1: &str, v1: &str, k2: &str, v2: &str) -> (r: Vec<(String, SingBoxValue)>)
    ensures
        rule_view(r@) == seq![(k1@, SingBoxView::Text(v1@)), (k2@, SingBoxView::Text(v2@))],
{
    let r = vec![
        (k1.to_owned(), SingBoxValue::Text(v1.to_owned())),
        (k2.to_owned(), SingBoxValue::Text(v2.to_owned())),
    ];
    assert(rule_view(r@) =~= seq![(k1@, SingBoxView::Text(v1@)), (k2@, SingBoxView::Text(v2@))]);
    r
}

/// The type and value a line adds (see [`line_entry`]).
fn line_entry_exec(line: &[char]) -> (r: Option<(String, String)>)
    ensures
        match r {
            Some(e) => line_entry(line@) == Some((e.0@, e.1@)),
            None => line_entry(line@) is None,
        },
{
    let l = trim_chars(line);
    if l.len() == 0 || l[0] == ';' || l[0] == '#' || starts_with_str(l.as_slice(), "//") {
        return None;
    }
    let l2 = if contains_str(l.as_slice(), "//") {
        let sep = chars_of("//");
        let head = before_sub_exec(l.as_slice(), sep.as_slice());
        trim_chars(head.as_slice())
    } else {
        l
    };
    let parts = split(l2.as_slice(), ',');
    let ghost pv = views(parts@);
    assert(pv.len() == parts@.len());
    if parts.len() < 2 || !singbox_rule_type(parts[0].as_slice()) {
        return None;
    }
    let t = sb_type_name_exec(parts[0].as_slice());
    let v = lower_exec(parts[1].as_slice());
    Some((t, v))
}

/// The rule of an inline rule, if it makes one, and whether it names the
/// final outbound (see [`inline_step`]).
fn inline_rule(line: &[char], group: &String) -> (r: (Option<Vec<(String, SingBoxValue)>>, bool))
    ensures
        forall|st: SbState|
            #[trigger] inline_step(st, line@, group@) == (if r.1 {
                SbState { final_outbound: group@, ..st }
            } else {
                match r.0 {
                    Some(rule) => SbState {
                        rules: st.rules.push(rule_view(rule@)),
                        total: st.total + 1,
                        ..st
                    },
                    None => st,
                }
            }),
        r.1 ==> r.0 is None,
{
    if starts_with_str(line, "FINAL") || starts_with_str(line, "MATCH") {
        return (None, true);
    }
    let parts = split(line, ',');
    let ghost pv = views(parts@);
    assert(pv.len() == parts@.len());
    if parts.len() < 2 {
        return (None, false);
    }
    let t = sb_type_name_exec(parts[0].as_slice());
    let v = lower_exec(parts[1].as_slice());
    let tc = chars_of(t.as_str());
    if crate::text::eq_str(tc.as_slice(), "match") || crate::text::eq_str(tc.as_slice(), "final") {
        let r = vec![("outbound".to_owned(), SingBoxValue::Text(v))];
        assert(rule_view(r@) =~= seq![("outbound"@, SingBoxView::Text(std_lowercase(pv[1])))]);
        (Some(r), false)
    } else {
        let ghost tv = t@;
        let ghost vv = v@;
        let mut r = vec![(t, SingBoxValue::Text(v))];
        assert(rule_view(r@) =~= seq![(tv, SingBoxView::Text(vv))]);
        put_value(&mut r, "outbound".to_owned(), SingBoxValue::Text(group.clone()));
        (Some(r), false)
    }
}

/// The route rules for a list of rulesets (see [`rulesets_fold`]): first
/// the Clash mode rules where `add_clash_modes` holds and the DNS rule, then
/// one rule per ruleset that yields any, in order. Once `max_allowed_rules`
/// rules are counted (0: no limit) the rest are left out.
pub fn sing_box_route_rules(
    ruleset_content_array: &[RulesetContent],
    max_allowed_rules: u32,
    add_clash_modes: bool,
) -> (r: SingBoxRoute)
    requires
        rulesets_convertible(ruleset_content_array@, max_allowed_rules as nat, add_clash_modes),
    ensures
        ({
            let st = rulesets_fold(
                ruleset_content_array@,
                max_allowed_rules as nat,
                initial_state(add_clash_modes),
            );
            &&& rules_view(r.rules@) == st.rules
            &&& r.final_outbound@ == st.final_outbound
        }),
{
    let ghost max = max_allowed_rules as nat;
    let ghost init = initial_state(add_clash_modes);
    let mut rules: Vec<Vec<(String, SingBoxValue)>> = Vec::new();
    if add_clash_modes {
        rules.push(text_rule("clash_mode", "Global", "outbound", "GLOBAL"));
        rules.push(text_rule("clash_mode", "Direct", "outbound", "DIRECT"));
    }
    rules.push(text_rule("protocol", "dns", "outbound", "dns-out"));
    assert(rules_view(rules@) =~= initial_rules(add_clash_modes));
    let mut final_outbound = String::new();
    let mut count: u32 = 0;
    let mut i: usize = 0;
    assert(ruleset_content_array@.take(0) =~= Seq::<RulesetContent>::empty());
    while i < ruleset_content_array.len()
        invariant
            i <= ruleset_content_array@.len(),
            max == max_allowed_rules as nat,
            init == initial_state(add_clash_modes),
            rulesets_convertible(ruleset_content_array@, max, add_clash_modes),
            ({
                let st = rulesets_fold(ruleset_content_array@.take(i as int), max, init);
                &&& rules_view(rules@) == st.rules
                &&& final_outbound@ == st.final_outbound
                &&& count == kept_count(st.total, max)
            }),
            max_allowed_rules == 0 || count <= max_allowed_rules,
        decreases ruleset_content_array@.len() - i,
    {
        let ghost prefix = ruleset_content_array@.take(i as int);
        let ghost st = rulesets_fold(prefix, max, init);
        assert(ruleset_content_array@.take(i + 1).drop_last() =~= prefix);
        let ruleset = &ruleset_content_array[i];
        let ghost next = ruleset_step(st, *ruleset, max);
        assert(rulesets_fold(ruleset_content_array@.take(i + 1), max, init) == next);
        let reached = max_allowed_rules > 0 && count >= max_allowed_rules;
        assert(reached == limit_reached(st.total, max));
        let content = ruleset.get_rule_content();
        let chars = chars_of(content.as_str());
        let ghost text = content_text(ruleset);
        assert(chars@ == text);
        if reached || chars.len() == 0 {
            assert(next == st);
        } else if starts_with_str(chars.as_slice(), "[]") {
            proof {
                reveal_strlit("[]");
            }
            let line = slice_chars(chars.as_slice(), 2, chars.len());
            assert(line@ =~= text.skip(2));
            assert(next == inline_step(st, line@, ruleset.group@));
            let (made, names_final) = inline_rule(line.as_slice(), &ruleset.group);
            let ghost before_rules = rules_view(rules@);
            if names_final {
                final_outbound = ruleset.group.clone();
                assert(next == SbState { final_outbound: ruleset.group@, ..st });
            }
            match made {
                Some(rule) => {
                    let ghost rv = rule_view(rule@);
                    rules.push(rule);
                    assert(rules_view(rules@) =~= before_rules.push(rv));
                    count = count_one(count, max_allowed_rules);
                    assert(next.total == st.total + 1);
                },
                None => {
                    assert(next.rules == st.rules);
                    assert(next.total == st.total);
                },
            }
        } else {
            assert(ruleset_convertible(ruleset_content_array@[i as int]));
            let converted = convert_ruleset(content.as_str(), ruleset.rule_type);
            let conv_chars = chars_of(converted.as_str());
            let lines = split(conv_chars.as_slice(), '\n');
            let ghost lv = views(lines@);
            let ghost start_total = st.total;
            assert(lv == split_char(converted_ruleset(text, ruleset.rule_type), '\n'));
            let mut obj: Vec<(String, Vec<String>)> = Vec::new();
            let mut j: usize = 0;
            assert(obj_view(obj@) =~= Seq::<(Seq<char>, Seq<Seq<char>>)>::empty());
            while j < lines.len()
                invariant
                    j <= lines@.len(),
                    lv == views(lines@),
                    max == max_allowed_rules as nat,
                    ({
                        let (o, t) = lines_fold(lv.take(j as int), start_total, max);
                        &&& obj_view(obj@) == o
                        &&& count == kept_count(t, max)
                    }),
                    max_allowed_rules == 0 || count <= max_allowed_rules,
                decreases lines@.len() - j,
            {
                assert(lv.take(j + 1).drop_last() =~= lv.take(j as int));
                if max_allowed_rules > 0 && count >= max_allowed_rules {
                } else {
                    match line_entry_exec(lines[j].as_slice()) {
                        Some(entry) => {
                            append_value(&mut obj, entry.0, entry.1);
                            count = count_one(count, max_allowed_rules);
                        },
                        None => {},
                    }
                }
                j = j + 1;
            }
            assert(lv.take(lv.len() as int) =~= lv);
            let ghost folded = lines_fold(lv, start_total, max);
            assert(obj_view(obj@) == folded.0);
            assert(obj_view(obj@).len() == obj@.len());
            let ghost before_rules = rules_view(rules@);
            if obj.len() > 0 {
                let mut rule = lists_to_values(obj);
                put_value(&mut rule, "outbound".to_owned(), SingBoxValue::Text(ruleset.group.clone()));
                let ghost rv = rule_view(rule@);
                assert(rv == map_put(lists_as_values(folded.0), "outbound"@, SingBoxView::Text(ruleset.group@)));
                rules.push(rule);
                assert(rules_view(rules@) =~= before_rules.push(rv));
            }
            assert(next.total == folded.1);
        }
        assert(rules_view(rules@) == next.rules);
        assert(final_outbound@ == next.final_outbound);
        assert(count == kept_count(next.total, max));
        i = i + 1;
    }
    assert(ruleset_content_array@.take(i as int) =~= ruleset_content_array@);
    SingBoxRoute { rules, final_outbound }
}

/// A rule that has an `outbound` key.
pub open spec fn routes_somewhere(rule: Seq<(Seq<char>, SingBoxView)>) -> bool {
    key_pos(rule, "outbound"@) >= 0
}

/// A key put into a list of pairs is found there.
proof fn lemma_map_put_has_key<V>(m: Seq<(Seq<char>, V)>, k: Seq<char>, v: V)
    ensures
        key_pos(map_put(m, k, v), k) >= 0,
    decreases m.len(),
{
    lemma_key_pos_found(m, k);
    if key_pos(m, k) < 0 {
        lemma_key_pos_push(m, k, v);
    } else {
        lemma_key_pos_update(m, k, key_pos(m, k), v);
    }
}

/// Appending a pair with key `k` to a list without `k` makes `k` found.
proof fn lemma_key_pos_push<V>(m: Seq<(Seq<char>, V)>, k: Seq<char>, v: V)
    requires
        key_pos(m, k) < 0,
    ensures
        key_pos(m.push((k, v)), k) >= 0,
    decreases m.len(),
{
    if m.len() > 0 {
        assert(m.push((k, v)).drop_first() =~= m.drop_first().push((k, v)));
        lemma_key_pos_push(m.drop_first(), k, v);
    }
}

/// Replacing the value of the pair where `k` is found keeps `k` found.
proof fn lemma_key_pos_update<V>(m: Seq<(Seq<char>, V)>, k: Seq<char>, i: int, v: V)
    requires
        0 <= i < m.len(),
        key_pos(m, k) == i,
    ensures
        key_pos(m.update(i, (k, v)), k) >= 0,
    decreases m.len(),
{
    if i > 0 {
        assert(m.update(i, (k, v)).drop_first() =~= m.drop_first().update(i - 1, (k, v)));
        lemma_key_pos_update(m.drop_first(), k, i - 1, v);
    }
}

/// Every route rule that the conversion makes, the DNS and Clash mode rules
/// included, names an outbound.
pub proof fn law_every_rule_routes(rs: Seq<RulesetContent>, max: nat, add_clash_modes: bool, i: int)
    requires
        0 <= i < rulesets_fold(rs, max, initial_state(add_clash_modes)).rules.len(),
    ensures
        routes_somewhere(rulesets_fold(rs, max, initial_state(add_clash_modes)).rules[i]),
    decreases rs.len(),
{
    let init = initial_state(add_clash_modes);
    if rs.len() == 0 {
        reveal_strlit("outbound");
        reveal_strlit("clash_mode");
        reveal_strlit("protocol");
        let rule = init.rules[i];
        assert("protocol"@[0] != "outbound"@[0]);
        assert("clash_mode"@.len() != "outbound"@.len());
        if add_clash_modes {
            assert(i == 0 || i == 1 || i == 2);
        } else {
            assert(i == 0);
        }
        assert(rule.len() == 2 && rule[1].0 == "outbound"@ && rule[0].0 != "outbound"@);
        assert(rule.drop_first()[0].0 == "outbound"@);
        assert(key_pos(rule.drop_first(), "outbound"@) == 0);
        assert(routes_somewhere(rule));
    } else {
        let prev = rulesets_fold(rs.drop_last(), max, init);
        let next = rulesets_fold(rs, max, init);
        let r = rs.last();
        if i < prev.rules.len() {
            law_every_rule_routes(rs.drop_last(), max, add_clash_modes, i);
            assert(next.rules[i] == prev.rules[i]) by {
                assert(next.rules.len() >= prev.rules.len());
            }
        } else {
            let content = content_text(&r);
            if has_prefix(content, "[]"@) {
                let line = content.skip(2);
                let parts = split_char(line, ',');
                let t = sb_type_name(parts[0]);
                let v = std_lowercase(parts[1]);
                if t == "match"@ || t == "final"@ {
                    assert(key_pos(seq![("outbound"@, SingBoxView::Text(v))], "outbound"@) == 0);
                } else {
                    lemma_map_put_has_key(seq![(t, SingBoxView::Text(v))], "outbound"@, SingBoxView::Text(r.group@));
                }
            } else {
                let (obj, total) = lines_fold(split_char(converted_ruleset(content, r.rule_type), '\n'), prev.total, max);
                lemma_map_put_has_key(lists_as_values(obj), "outbound"@, SingBoxView::Text(r.group@));
            }
        }
    }
}


/// The route rules of a sing-box configuration: those of its base (any
/// rule objects) unless `overwrite_original_rules`, then the new ones.
pub fn merged_route_rules<T>(base: Vec<T>, new_rules: Vec<T>, overwrite_original_rules: bool) -> (r: Vec<T>)
    ensures
        r@ == (if overwrite_original_rules {
            new_rules@
        } else {
            base@ + new_rules@
        }),
{
    if overwrite_original_rules {
        new_rules
    } else {
        let mut all = base;
        let mut more = new_rules;
        all.append(&mut more);
        all
    }
}


/// Replacing `src_` by `source_` keeps the first character of a text that
/// has one.
proof fn lemma_source_first(x: Seq<char>)
    requires
        x.len() > 0,
    ensures
        replace_all(x, "src_"@, "source_"@).len() > 0,
        replace_all(x, "src_"@, "source_"@)[0] == x[0],
{
    reveal_strlit("src_");
    reveal_strlit("source_");
    if has_prefix(x, "src_"@) {
        assert(x.take(4)[0] == x[0]);
    }
}

/// After every `src_` of a text is replaced by `source_`, no `src_` is left.
pub proof fn lemma_no_src_left(x: Seq<char>)
    ensures
        !contains_seq(replace_all(x, "src_"@, "source_"@), "src_"@),
    decreases x.len(),
{
    reveal_strlit("src_");
    reveal_strlit("source_");
    let p = "src_"@;
    let q = "source_"@;
    let r = replace_all(x, p, q);
    if x.len() == 0 {
        assert(r.len() == 0);
        return;
    }
    if contains_seq(r, p) {
        let i = choose|i: int| 0 <= i <= r.len() - p.len() && #[trigger] r.subrange(i, i + p.len()) =~= p;
        assert(r[i] == 's' && r[i + 1] == 'r' && r[i + 2] == 'c' && r[i + 3] == '_') by {
            assert(r.subrange(i, i + 4)[0] == r[i]);
            assert(r.subrange(i, i + 4)[1] == r[i + 1]);
            assert(r.subrange(i, i + 4)[2] == r[i + 2]);
            assert(r.subrange(i, i + 4)[3] == r[i + 3]);
        }
        if has_prefix(x, p) {
            let rest = x.skip(4);
            let r2 = replace_all(rest, p, q);
            lemma_no_src_left(rest);
            assert(r == q + r2);
            if i >= 7 {
                let j = i - 7;
                assert(r2.subrange(j, j + p.len()) =~= r.subrange(i, i + p.len()));
                assert(0 <= j <= r2.len() - p.len());
                assert(contains_seq(r2, p));
            } else {
                assert(r[i] == q[i]);
                assert(i == 0);
                assert(r[1] == q[1]);
            }
        } else {
            let rest = x.skip(1);
            let r2 = replace_all(rest, p, q);
            lemma_no_src_left(rest);
            assert(r == seq![x[0]] + r2);
            if i >= 1 {
                let j = i - 1;
                assert(r2.subrange(j, j + p.len()) =~= r.subrange(i, i + p.len()));
                assert(0 <= j <= r2.len() - p.len());
                assert(contains_seq(r2, p));
            } else {
                assert(x[0] == 's');
                assert(r2.len() >= 3);
                assert(rest.len() > 0);
                lemma_source_first(rest);
                assert(x[1] == 'r');
                assert(!has_prefix(rest, p)) by {
                    if has_prefix(rest, p) {
                        assert(rest.take(4)[0] == rest[0]);
                    }
                }
                let rest2 = x.skip(2);
                let r3 = replace_all(rest2, p, q);
                assert(rest.skip(1) =~= rest2);
                assert(r2 == seq![rest[0]] + r3);
                assert(rest2.len() > 0);
                lemma_source_first(rest2);
                assert(x[2] == 'c');
                assert(!has_prefix(rest2, p)) by {
                    if has_prefix(rest2, p) {
                        assert(rest2.take(4)[0] == rest2[0]);
                    }
                }
                let rest3 = x.skip(3);
                let r4 = replace_all(rest3, p, q);
                assert(rest2.skip(1) =~= rest3);
                assert(r3 == seq![rest2[0]] + r4);
                assert(rest3.len() > 0);
                lemma_source_first(rest3);
                assert(x[3] == '_');
                assert(x.take(4) =~= p);
                assert(has_prefix(x, p));
            }
        }
    }
}

/// The sing-box key of a rule type never holds `src_`: every `src_` in the
/// lowered type becomes `source_` (so `SRC-IP-CIDR` is `source_ip_cidr`).
pub proof fn law_sing_box_key_has_no_src(t: Seq<char>)
    ensures
        !contains_seq(sb_type_name(t), "src_"@),
{
    lemma_no_src_left(replace_all(replace_all(std_lowercase(t), "-"@, "_"@), "ip_cidr6"@, "ip_cidr"@));
}


/// Replacing in a text without the character `c` by a text without it
/// leaves a text without it.
proof fn lemma_replace_keeps_out(x: Seq<char>, pat: Seq<char>, rep: Seq<char>, c: char)
    requires
        !x.contains(c),
        !rep.contains(c),
    ensures
        !replace_all(x, pat, rep).contains(c),
    decreases x.len(),
{
    if x.len() > 0 {
        let r = replace_all(x, pat, rep);
        if pat.len() > 0 && has_prefix(x, pat) {
            let rest = x.skip(pat.len() as int);
            assert(!rest.contains(c)) by {
                if rest.contains(c) {
                    let k = choose|k: int| 0 <= k < rest.len() && rest[k] == c;
                    assert(x[k + pat.len()] == c);
                }
            }
            lemma_replace_keeps_out(rest, pat, rep, c);
            let r2 = replace_all(rest, pat, rep);
            assert(r == rep + r2);
            if r.contains(c) {
                let k = choose|k: int| 0 <= k < r.len() && r[k] == c;
                if k < rep.len() {
                    assert(rep[k] == c);
                } else {
                    assert(r2[k - rep.len()] == c);
                }
            }
        } else {
            let rest = x.skip(1);
            assert(!rest.contains(c)) by {
                if rest.contains(c) {
                    let k = choose|k: int| 0 <= k < rest.len() && rest[k] == c;
                    assert(x[k + 1] == c);
                }
            }
            lemma_replace_keeps_out(rest, pat, rep, c);
            let r2 = replace_all(rest, pat, rep);
            assert(r == seq![x[0]] + r2);
            if r.contains(c) {
                let k = choose|k: int| 0 <= k < r.len() && r[k] == c;
                if k == 0 {
                    assert(x[0] == c);
                } else {
                    assert(r2[k - 1] == c);
                }
            }
        }
    }
}

/// Replacing every `c` by `d` (another character) leaves no `c`.
proof fn lemma_replace_char_out(x: Seq<char>, c: char, d: char)
    requires
        c != d,
    ensures
        !replace_all(x, seq![c], seq![d]).contains(c),
    decreases x.len(),
{
    if x.len() > 0 {
        let r = replace_all(x, seq![c], seq![d]);
        let rest = x.skip(1);
        lemma_replace_char_out(rest, c, d);
        let r2 = replace_all(rest, seq![c], seq![d]);
        if has_prefix(x, seq![c]) {
            assert(rest =~= x.skip(seq![c].len() as int));
            assert(r == seq![d] + r2);
        } else {
            assert(x[0] != c) by {
                if x[0] == c {
                    assert(x.take(1) =~= seq![c]);
                }
            }
            assert(r == seq![x[0]] + r2);
        }
        if r.contains(c) {
            let k = choose|k: int| 0 <= k < r.len() && r[k] == c;
            if k > 0 {
                assert(r2[k - 1] == c);
            }
        }
    }
}

/// The sing-box key of a rule type never holds `-`: every `-` of the lowered
/// type becomes `_`, and the later rewrites bring in none.
pub proof fn law_sing_box_key_has_no_dash(t: Seq<char>)
    ensures
        !sb_type_name(t).contains('-'),
{
    reveal_strlit("-");
    reveal_strlit("_");
    reveal_strlit("ip_cidr");
    reveal_strlit("source_");
    assert("-"@ =~= seq!['-']);
    assert("_"@ =~= seq!['_']);
    let a = replace_all(std_lowercase(t), "-"@, "_"@);
    lemma_replace_char_out(std_lowercase(t), '-', '_');
    assert(!"ip_cidr"@.contains('-'));
    lemma_replace_keeps_out(a, "ip_cidr6"@, "ip_cidr"@, '-');
    let b = replace_all(a, "ip_cidr6"@, "ip_cidr"@);
    assert(!"source_"@.contains('-'));
    lemma_replace_keeps_out(b, "src_"@, "source_"@, '-');
}

} // verus!

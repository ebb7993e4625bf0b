//! The rules of a Clash configuration from its rulesets.
use super::common::{rule_to_common, transform_rule_to_common};
use super::convert_ruleset::{before_sub, before_sub_exec, convert_ruleset, converted_ruleset};
use super::ruleset_to_surge::{basic_types, readable, starts_with_any, starts_with_any_exec};
use crate::models::ruleset::{content_text, RulesetContent};
use crate::text::{
    chars_of, contains_seq, contains_str, has_prefix, push_all, slice_chars, split, split_char,
    starts_with_str, string_of, string_views, trim, trim_chars, views,
};
use vstd::prelude::*;

verus! {

/// The rule types Clash takes.
pub open spec fn clash_types() -> Seq<Seq<char>> {
    basic_types() + seq!["IP-CIDR6"@, "SRC-PORT"@, "DST-PORT"@, "PROCESS-NAME"@]
}

/// The Clash rule for one line of a converted ruleset, routed to `group`;
/// `None` for an empty line, a comment, or a rule of a type Clash does not
/// take. A comment after `//` is dropped.
pub open spec fn clash_line(line: Seq<char>, group: Seq<char>) -> Option<Seq<char>> {
    let l = trim(line);
    if l.len() == 0 || l[0] == ';' || l[0] == '#' || has_prefix(l, "//"@) {
        None
    } else if !starts_with_any(l, clash_types()) {
        None
    } else {
        let l2 = if contains_seq(l, "//"@) {
            trim(before_sub(l, "//"@))
        } else {
            l
        };
        Some(rule_to_common(l2, group, false))
    }
}

/// The Clash rules for `lines`, in order.
pub open spec fn clash_lines_of(lines: Seq<Seq<char>>, group: Seq<char>) -> Seq<Seq<char>>
    decreases lines.len(),
{
    if lines.len() == 0 {
        Seq::empty()
    } else {
        let prev = clash_lines_of(lines.drop_last(), group);
        match clash_line(lines.last(), group) {
            Some(x) => prev.push(x),
            None => prev,
        }
    }
}

/// The Clash rule of an inline rule `l` (what follows its `[]` mark):
/// `FINAL` is written `MATCH`, and the rule is routed to `group`.
pub open spec fn inline_clash_rule(l: Seq<char>, group: Seq<char>) -> Seq<char> {
    let l2 = if has_prefix(l, "FINAL"@) {
        "MATCH"@ + l.skip(5)
    } else {
        l
    };
    rule_to_common(l2, group, false)
}

/// The Clash rules one ruleset gives: none without text; its one rule for
/// an inline rule (text starting with `[]`); else the rules of its text
/// converted to the Surge dialect, each routed to its group.
pub open spec fn ruleset_clash_rules(r: RulesetContent) -> Seq<Seq<char>> {
    let c = content_text(&r);
    if c.len() == 0 {
        Seq::empty()
    } else if has_prefix(c, "[]"@) {
        seq![inline_clash_rule(c.skip(2), r.group@)]
    } else {
        clash_lines_of(split_char(converted_ruleset(c, r.rule_type), '\n'), r.group@)
    }
}

/// The Clash rules of rulesets in order.
pub open spec fn clash_rules_of(rs: Seq<RulesetContent>) -> Seq<Seq<char>>
    decreases rs.len(),
{
    if rs.len() == 0 {
        Seq::empty()
    } else {
        clash_rules_of(rs.drop_last()) + ruleset_clash_rules(rs.last())
    }
}

/// A ruleset whose rules can be read for Clash: no text, an inline rule,
/// or fetched rules that can be converted (see [`readable`]).
pub open spec fn clash_readable(r: RulesetContent) -> bool {
    let c = content_text(&r);
    c.len() == 0 || has_prefix(c, "[]"@) || readable(r)
}

/// The field of a Clash configuration that holds its rules: `rules`, or
/// `Rule` in the old field names.
pub open spec fn rules_field(new_field_name: bool) -> Seq<char> {
    if new_field_name {
        "rules"@
    } else {
        "Rule"@
    }
}

/// The field of a Clash configuration that holds its rules (see
/// [`rules_field`]).
pub fn clash_rules_field(new_field_name: bool) -> (r: &'static str)
    ensures
        r@ == rules_field(new_field_name),
{
    if new_field_name {
        "rules"
    } else {
        "Rule"
    }
}

/// Whether Clash takes the rule `l` (see [`clash_types`]).
fn clash_rule_type_exec(l: &[char]) -> (r: bool)
    ensures
        r == starts_with_any(l@, clash_types()),
{
    let types = vec![
        "DOMAIN",
        "DOMAIN-SUFFIX",
        "DOMAIN-KEYWORD",
        "IP-CIDR",
        "SRC-IP-CIDR",
        "GEOIP",
        "MATCH",
        "FINAL",
        "IP-CIDR6",
        "SRC-PORT",
        "DST-PORT",
        "PROCESS-NAME",
    ];
    assert(types@.map_values(|s: &str| s@) =~= clash_types());
    starts_with_any_exec(l, &types)
}

/// The Clash rule for one line of a converted ruleset (see [`clash_line`]).
fn clash_line_exec(line: &[char], group: &str) -> (r: Option<String>)
    ensures
        match r {
            Some(s) => clash_line(line@, group@) == Some(s@),
            None => clash_line(line@, group@) is None,
        },
{
    let l = trim_chars(line);
    if l.len() == 0 || l[0] == ';' || l[0] == '#' || starts_with_str(l.as_slice(), "//") {
        return None;
    }
    if !clash_rule_type_exec(l.as_slice()) {
        return None;
    }
    let l2 = if contains_str(l.as_slice(), "//") {
        let sep = chars_of("//");
        let head = before_sub_exec(l.as_slice(), sep.as_slice());
        trim_chars(head.as_slice())
    } else {
        l
    };
    let s = string_of(l2.as_slice());
    Some(transform_rule_to_common(s.as_str(), group, false))
}

/// The Clash rules one ruleset gives (see [`ruleset_clash_rules`]).
fn ruleset_clash_rules_exec(r: &RulesetContent) -> (out: Vec<String>)
    requires
        clash_readable(*r),
    ensures
        string_views(out@) == ruleset_clash_rules(*r),
{
    let content = r.get_rule_content();
    let c = chars_of(content.as_str());
    let mut out: Vec<String> = Vec::new();
    if c.len() == 0 {
        assert(string_views(out@) =~= Seq::<Seq<char>>::empty());
        return out;
    }
    proof {
        reveal_strlit("[]");
        reveal_strlit("FINAL");
    }
    if starts_with_str(c.as_slice(), "[]") {
        let rest = slice_chars(c.as_slice(), 2, c.len());
        let line = if starts_with_str(rest.as_slice(), "FINAL") {
            let mut v = chars_of("MATCH");
            let tail = slice_chars(rest.as_slice(), 5, rest.len());
            push_all(&mut v, tail.as_slice());
            v
        } else {
            rest
        };
        proof {
            reveal_strlit("MATCH");
        }
        let s = string_of(line.as_slice());
        let rule = transform_rule_to_common(s.as_str(), r.group.as_str(), false);
        out.push(rule);
        assert(string_views(out@) =~= seq![rule@]);
        return out;
    }
    let converted = convert_ruleset(content.as_str(), r.rule_type);
    let chars = chars_of(converted.as_str());
    let lines = split(chars.as_slice(), '\n');
    let ghost lv = views(lines@);
    let ghost gv = r.group@;
    assert(lv == split_char(converted_ruleset(content_text(r), r.rule_type), '\n'));
    let mut i: usize = 0;
    assert(string_views(out@) =~= Seq::<Seq<char>>::empty());
    while i < lines.len()
        invariant
            i <= lines@.len(),
            lv == views(lines@),
            gv == r.group@,
            string_views(out@) == clash_lines_of(lv.take(i as int), gv),
        decreases lines@.len() - i,
    {
        assert(lv.take(i + 1).drop_last() =~= lv.take(i as int));
        let ghost before = string_views(out@);
        match clash_line_exec(lines[i].as_slice(), r.group.as_str()) {
            Some(x) => {
                out.push(x);
                assert(string_views(out@) =~= before.push(x@));
            },
            None => {},
        }
        i = i + 1;
    }
    assert(lv.take(lv.len() as int) =~= lv);
    out
}

/// The rules of a Clash configuration: those already under its rules field
/// (`base_rules`; none where `overwrite_original_rules` holds), then the
/// rules of each ruleset in order (see [`clash_rules_of`]). Every ruleset
/// with fetched rules of a dialect other than Surge must be a Clash payload
/// (see [`clash_readable`]).
pub fn ruleset_to_clash(
    base_rules: &Vec<String>,
    ruleset_content_array: &[RulesetContent],
    overwrite_original_rules: bool,
) -> (r: Vec<String>)
    requires
        forall|i: int|
            0 <= i < ruleset_content_array@.len() ==> clash_readable(#[trigger] ruleset_content_array@[i]),
    ensures
        string_views(r@) == (if overwrite_original_rules {
            Seq::empty()
        } else {
            string_views(base_rules@)
        }) + clash_rules_of(ruleset_content_array@),
{
    let ghost rs = ruleset_content_array@;
    let mut out: Vec<String> = Vec::new();
    if !overwrite_original_rules {
        let mut k: usize = 0;
        while k < base_rules.len()
            invariant
                k <= base_rules@.len(),
                string_views(out@) == string_views(base_rules@).take(k as int),
            decreases base_rules@.len() - k,
        {
            let ghost b = string_views(out@);
            out.push(base_rules[k].clone());
            assert(string_views(out@) =~= b.push(base_rules@[k as int]@));
            assert(string_views(base_rules@).take(k + 1) =~= string_views(base_rules@).take(k as int).push(
                base_rules@[k as int]@,
            ));
            k = k + 1;
        }
        assert(string_views(base_rules@).take(k as int) =~= string_views(base_rules@));
    }
    let ghost start = string_views(out@);
    assert(start =~= (if overwrite_original_rules {
        Seq::empty()
    } else {
        string_views(base_rules@)
    }));
    let mut i: usize = 0;
    assert(rs.take(0) =~= Seq::<RulesetContent>::empty());
    assert(start + clash_rules_of(rs.take(0)) =~= start);
    while i < ruleset_content_array.len()
        invariant
            i <= rs.len(),
            rs == ruleset_content_array@,
            forall|j: int| 0 <= j < rs.len() ==> clash_readable(#[trigger] rs[j]),
            string_views(out@) == start + clash_rules_of(rs.take(i as int)),
        decreases rs.len() - i,
    {
        assert(rs.take(i + 1).drop_last() =~= rs.take(i as int));
        assert(rs.take(i + 1).last() == rs[i as int]);
        let rules = ruleset_clash_rules_exec(&ruleset_content_array[i]);
        let ghost before = string_views(out@);
        let mut j: usize = 0;
        while j < rules.len()
            invariant
                j <= rules@.len(),
                string_views(out@) == before + string_views(rules@).take(j as int),
            decreases rules@.len() - j,
        {
            let ghost b = string_views(out@);
            out.push(rules[j].clone());
            assert(string_views(out@) =~= b.push(rules@[j as int]@));
            assert(string_views(rules@).take(j + 1) =~= string_views(rules@).take(j as int).push(
                rules@[j as int]@,
            ));
            j = j + 1;
        }
        assert(string_views(rules@).take(j as int) =~= string_views(rules@));
        assert(string_views(out@) =~= start + clash_rules_of(rs.take(i + 1)));
        i = i + 1;
    }
    assert(rs.take(i as int) =~= rs);
    out
}

} // verus!

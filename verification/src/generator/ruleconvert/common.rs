//! Rewriting a rule line so that it routes to a given group.
use crate::text::{chars_of, eq_str, push_all, push_str, split, split_char, string_of};
use vstd::prelude::*;

verus! {

/// The rule `input` routed to `group`. Of the comma-separated fields of the
/// input only the first four count: with one field the result is
/// `field,group`; with more it is `type,value,group`, followed by `,option`
/// when there is a third field and either `no_resolve_only` is off or that
/// field is `no-resolve`.
pub open spec fn rule_to_common(input: Seq<char>, group: Seq<char>, no_resolve_only: bool) -> Seq<char> {
    let parts = split_char(input, ',');
    if parts.len() < 2 {
        parts[0] + seq![','] + group
    } else {
        let base = parts[0] + seq![','] + parts[1] + seq![','] + group;
        if parts.len() > 2 && (!no_resolve_only || parts[2] == "no-resolve"@) {
            base + seq![','] + parts[2]
        } else {
            base
        }
    }
}

/// Rewrites a rule so that it routes to `group`, keeping its type, its value
/// and, where allowed, its option.
pub fn transform_rule_to_common(input: &str, group: &str, no_resolve_only: bool) -> (r: String)
    ensures
        r@ == rule_to_common(input@, group@, no_resolve_only),
{
    let s = chars_of(input);
    let parts = split(s.as_slice(), ',');
    let mut out: Vec<char> = Vec::new();
    assert(parts@[0]@ == split_char(s@, ',')[0]);
    push_all(&mut out, parts[0].as_slice());
    out.push(',');
    if parts.len() < 2 {
        push_str(&mut out, group);
    } else {
        assert(parts@[1]@ == split_char(s@, ',')[1]);
        push_all(&mut out, parts[1].as_slice());
        out.push(',');
        push_str(&mut out, group);
        if parts.len() > 2 {
            assert(parts@[2]@ == split_char(s@, ',')[2]);
            if !no_resolve_only || eq_str(parts[2].as_slice(), "no-resolve") {
                out.push(',');
                push_all(&mut out, parts[2].as_slice());
            }
        }
    }
    string_of(out.as_slice())
}

} // verus!

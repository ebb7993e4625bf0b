//! Conversion of a fetched ruleset into the Surge dialect.
use crate::models::ruleset::RulesetType;
use crate::text::{
    replace_all, replace_all_exec,
    chars_of, contains_char, contains_seq, contains_str, ends_with_str, has_prefix, has_suffix,
    occurs_at, push_all, push_str, slice_chars, split, split_char, starts_with_str, string_of,
    trim, trim_chars, views,
};
use crate::utils::matcher::regex_is_match;
use crate::utils::network::{ipv4_chars, ipv4_text};
use vstd::prelude::*;

verus! {

// ---------------------------------------------------------------------------
// Specifications
// ---------------------------------------------------------------------------
/// The part of `s` before the first occurrence of `needle` (all of `s`
/// where there is none).
pub open spec fn before_sub(s: Seq<char>, needle: Seq<char>) -> Seq<char>
    decreases s.len(),
{
    if s.len() == 0 || has_prefix(s, needle) {
        Seq::empty()
    } else {
        seq![s[0]] + before_sub(s.skip(1), needle)
    }
}

/// Whether a Clash ruleset starts with its `payload:` header line.
pub open spec fn payload_header(content: Seq<char>) -> bool {
    has_prefix(content, "payload:\n"@) || has_prefix(content, "payload:\r\n"@)
}

/// The lines of a Clash ruleset once every `payload:` is taken out and the
/// text trimmed.
pub open spec fn payload_lines(content: Seq<char>) -> Seq<Seq<char>> {
    split_char(trim(replace_all(content, "payload:"@, Seq::empty())), '\n')
}

/// A rule entry without the quotes that may enclose it.
pub open spec fn unquote(rc: Seq<char>) -> Seq<char> {
    if rc.len() > 0 && rc[0] == '\'' && rc.last() == '\'' {
        rc.subrange(1, rc.len() - 1)
    } else if rc.len() > 0 && rc[0] == '"' && rc.last() == '"' {
        rc.subrange(1, rc.len() - 1)
    } else {
        rc
    }
}

/// The rule of a list entry `- rule` of a Clash ruleset; `None` for a line
/// that is not a list entry.
pub open spec fn dash_item(line: Seq<char>) -> Option<Seq<char>> {
    let l = trim(line);
    if l.len() > 0 && l[0] == '-' {
        Some(unquote(trim(l.skip(1))))
    } else {
        None
    }
}

/// A list entry that is a single quote character, which the conversion
/// cannot unquote.
pub open spec fn lone_quote_item(line: Seq<char>) -> bool {
    let l = trim(line);
    let rc = trim(l.skip(1));
    &&& l.len() > 0
    &&& l[0] == '-'
    &&& rc.len() == 1
    &&& (rc[0] == '\'' || rc[0] == '"')
}

/// Whether every list entry of the Clash ruleset `content` can be unquoted.
pub open spec fn entries_unquotable(content: Seq<char>) -> bool {
    forall|i: int|
        0 <= i < payload_lines(content).len() ==> !#[trigger] lone_quote_item(
            payload_lines(content)[i],
        )
}

/// The rules of the list entries among `lines`, in order.
pub open spec fn rule_items(lines: Seq<Seq<char>>) -> Seq<Seq<char>>
    decreases lines.len(),
{
    if lines.len() == 0 {
        Seq::empty()
    } else {
        let prev = rule_items(lines.drop_last());
        match dash_item(lines.last()) {
            Some(x) => prev.push(x),
            None => prev,
        }
    }
}

/// Each of `items` followed by a line break.
pub open spec fn joined_lines(items: Seq<Seq<char>>) -> Seq<char>
    decreases items.len(),
{
    if items.len() == 0 {
        Seq::empty()
    } else {
        joined_lines(items.drop_last()) + items.last() + "\n"@
    }
}

/// `s` without any number of trailing `.*`.
pub open spec fn strip_stars(s: Seq<char>) -> Seq<char>
    decreases s.len(),
{
    if s.len() >= 2 && s[s.len() - 2] == '.' && s[s.len() - 1] == '*' {
        strip_stars(s.take(s.len() - 2))
    } else {
        s
    }
}

/// A domain without its leading `+.` or `.`.
pub open spec fn strip_lead_dot(s: Seq<char>) -> Seq<char> {
    if has_prefix(s, "+."@) {
        s.skip(2)
    } else if has_prefix(s, "."@) {
        s.skip(1)
    } else {
        s
    }
}

/// A rule entry without the comment that `//` starts.
pub open spec fn uncommented(item: Seq<char>) -> Seq<char> {
    let l = trim(item);
    if contains_seq(l, "//"@) {
        trim(before_sub(l, "//"@))
    } else {
        l
    }
}

/// The Surge rule for one Clash rule entry; `None` for an empty entry or a
/// comment. An entry with a `/` is an address range, IPv4 where the part
/// before the `/` is an IPv4 address; one that starts with `.` or `+.` is a
/// domain suffix, or a keyword where it ends with `.*`; any other is a
/// domain.
pub open spec fn surge_rule(item: Seq<char>) -> Option<Seq<char>> {
    let l = uncommented(item);
    if l.len() == 0 || l[0] == ';' || l[0] == '#' || has_prefix(l, "//"@) {
        None
    } else if l.contains('/') {
        Some(
            (if ipv4_text(before_sub(l, "/"@)) {
                "IP-CIDR,"@
            } else {
                "IP-CIDR6,"@
            }) + l,
        )
    } else if l[0] == '.' || has_prefix(l, "+."@) {
        Some(
            "DOMAIN-"@ + (if has_suffix(l, ".*"@) {
                "KEYWORD,"@
            } else {
                "SUFFIX,"@
            }) + strip_lead_dot(strip_stars(l)),
        )
    } else {
        Some("DOMAIN,"@ + l)
    }
}

/// The Surge rules for the entries `items`, one per line.
pub open spec fn surge_lines(items: Seq<Seq<char>>) -> Seq<char>
    decreases items.len(),
{
    if items.len() == 0 {
        Seq::empty()
    } else {
        surge_lines(items.drop_last()) + match surge_rule(items.last()) {
            Some(rule) => rule + "\n"@,
            None => Seq::empty(),
        }
    }
}

/// A ruleset converted to the dialect `t`: a Surge ruleset is kept; a Clash
/// ruleset gives its list entries, one per line, for the classical dialect,
/// and Surge rules for the others.
pub open spec fn converted_ruleset(content: Seq<char>, t: RulesetType) -> Seq<char> {
    if t == RulesetType::Surge {
        content
    } else {
        let items = rule_items(payload_lines(content));
        if t == RulesetType::ClashClassical {
            joined_lines(items)
        } else {
            surge_lines(items)
        }
    }
}

// ---------------------------------------------------------------------------
// Executable functions
// ---------------------------------------------------------------------------
/// The part of `s` before the first occurrence of `needle` (see [`before_sub`]).
pub(crate) fn before_sub_exec(s: &[char], needle: &[char]) -> (r: Vec<char>)
    ensures
        r@ == before_sub(s@, needle@),
{
    let mut out: Vec<char> = Vec::new();
    let mut i: usize = 0;
    assert(s@.skip(0) =~= s@);
    while i < s.len()
        invariant
            i <= s@.len(),
            out@ + before_sub(s@.skip(i as int), needle@) == before_sub(s@, needle@),
        decreases s@.len() - i,
    {
        let ghost t = s@.skip(i as int);
        if needle.len() <= s.len() - i && occurs_at(s, needle, i) {
            assert(t.take(needle@.len() as int) =~= s@.subrange(i as int, i + needle@.len()));
            assert(out@ + before_sub(t, needle@) =~= out@);
            return out;
        }
        assert(!has_prefix(t, needle@)) by {
            if has_prefix(t, needle@) {
                assert(t.take(needle@.len() as int) =~= s@.subrange(i as int, i + needle@.len()));
            }
        }
        assert(t.skip(1) =~= s@.skip(i + 1));
        assert(out@.push(s@[i as int]) + before_sub(s@.skip(i + 1), needle@) =~= out@ + (seq![t[0]]
            + before_sub(t.skip(1), needle@)));
        out.push(s[i]);
        i = i + 1;
    }
    assert(s@.skip(i as int).len() == 0);
    assert(out@ + before_sub(s@.skip(i as int), needle@) =~= out@);
    out
}

/// The rule of a list entry (see [`dash_item`]).
fn dash_item_exec(line: &[char]) -> (r: Option<Vec<char>>)
    requires
        !lone_quote_item(line@),
    ensures
        match r {
            Some(v) => dash_item(line@) == Some(v@),
            None => dash_item(line@) is None,
        },
{
    let l = trim_chars(line);
    if l.len() > 0 && l[0] == '-' {
        let rest = slice_chars(l.as_slice(), 1, l.len());
        assert(rest@ =~= l@.skip(1));
        let rc = trim_chars(rest.as_slice());
        let n = rc.len();
        if n > 0 && rc[0] == '\'' && rc[n - 1] == '\'' {
            Some(slice_chars(rc.as_slice(), 1, n - 1))
        } else if n > 0 && rc[0] == '"' && rc[n - 1] == '"' {
            Some(slice_chars(rc.as_slice(), 1, n - 1))
        } else {
            Some(rc)
        }
    } else {
        None
    }
}

/// `s` without any number of trailing `.*` (see [`strip_stars`]).
fn strip_stars_exec(s: &[char]) -> (r: Vec<char>)
    ensures
        r@ == strip_stars(s@),
{
    let mut n: usize = s.len();
    assert(s@.take(n as int) =~= s@);
    while n >= 2 && s[n - 2] == '.' && s[n - 1] == '*'
        invariant
            n <= s@.len(),
            strip_stars(s@.take(n as int)) == strip_stars(s@),
        decreases n,
    {
        assert(s@.take(n as int).take(n - 2) =~= s@.take(n - 2));
        n = n - 2;
    }
    let r = slice_chars(s, 0, n);
    assert(r@ =~= s@.take(n as int));
    r
}

/// A domain without its leading `+.` or `.` (see [`strip_lead_dot`]).
fn strip_lead_dot_exec(s: &[char]) -> (r: Vec<char>)
    ensures
        r@ == strip_lead_dot(s@),
{
    if starts_with_str(s, "+.") {
        proof {
            reveal_strlit("+.");
        }
        slice_chars(s, 2, s.len())
    } else if starts_with_str(s, ".") {
        proof {
            reveal_strlit(".");
        }
        slice_chars(s, 1, s.len())
    } else {
        slice_chars(s, 0, s.len())
    }
}

/// A rule entry without its comment (see [`uncommented`]).
fn uncommented_exec(item: &[char]) -> (r: Vec<char>)
    ensures
        r@ == uncommented(item@),
{
    let l = trim_chars(item);
    if contains_str(l.as_slice(), "//") {
        let sep = chars_of("//");
        let head = before_sub_exec(l.as_slice(), sep.as_slice());
        trim_chars(head.as_slice())
    } else {
        l
    }
}

/// The Surge rule for one Clash rule entry (see [`surge_rule`]).
fn surge_rule_exec(item: &[char]) -> (r: Option<Vec<char>>)
    ensures
        match r {
            Some(v) => surge_rule(item@) == Some(v@),
            None => surge_rule(item@) is None,
        },
{
    let l = uncommented_exec(item);
    if l.len() == 0 || l[0] == ';' || l[0] == '#' || starts_with_str(l.as_slice(), "//") {
        return None;
    }
    let mut out: Vec<char> = Vec::new();
    if contains_char(l.as_slice(), '/') {
        let slash = chars_of("/");
        let head = before_sub_exec(l.as_slice(), slash.as_slice());
        if ipv4_chars(head.as_slice()) {
            push_str(&mut out, "IP-CIDR,");
        } else {
            push_str(&mut out, "IP-CIDR6,");
        }
        push_all(&mut out, l.as_slice());
    } else if l[0] == '.' || starts_with_str(l.as_slice(), "+.") {
        let keyword = ends_with_str(l.as_slice(), ".*");
        let core = strip_stars_exec(l.as_slice());
        push_str(&mut out, "DOMAIN-");
        if keyword {
            push_str(&mut out, "KEYWORD,");
        } else {
            push_str(&mut out, "SUFFIX,");
        }
        let domain = strip_lead_dot_exec(core.as_slice());
        push_all(&mut out, domain.as_slice());
    } else {
        push_str(&mut out, "DOMAIN,");
        push_all(&mut out, l.as_slice());
    }
    Some(out)
}

/// Converts a fetched ruleset to the dialect `ruleset_type` (see
/// [`converted_ruleset`]). A ruleset for any dialect but Surge must be a
/// Clash ruleset, whose text starts with its `payload:` line: the rewrite of
/// other texts (Quantumult X rules) strips the policy of each rule with a
/// pattern that holds a look-ahead, `(?!no-resolve)`, which `Regex::new`
/// of the `regex` crate refuses, so that rewrite ends in a panic on every
/// such text and no output is defined for it.
pub fn convert_ruleset(content: &str, ruleset_type: RulesetType) -> (r: String)
    requires
        ruleset_type == RulesetType::Surge || payload_header(content@),
        ruleset_type != RulesetType::Surge ==> entries_unquotable(content@),
    ensures
        r@ == converted_ruleset(content@, ruleset_type),
{
    if ruleset_type == RulesetType::Surge {
        return content.to_owned();
    }
    let header = regex_is_match("^payload:\\r?\\n", content);
    match header {
        Some(true) => {},
        _ => {
            return String::new();
        },
    }
    let chars = chars_of(content);
    let tag = chars_of("payload:");
    proof {
        reveal_strlit("payload:");
    }
    let nothing: Vec<char> = Vec::new();
    let stripped = replace_all_exec(chars.as_slice(), tag.as_slice(), nothing.as_slice());
    assert(nothing@ =~= Seq::<char>::empty());
    let body = trim_chars(stripped.as_slice());
    let lines = split(body.as_slice(), '\n');
    let ghost lv = views(lines@);
    assert(lv == payload_lines(content@));
    let mut items: Vec<Vec<char>> = Vec::new();
    let mut i: usize = 0;
    while i < lines.len()
        invariant
            i <= lines@.len(),
            lv == views(lines@),
            lv == payload_lines(content@),
            entries_unquotable(content@),
            views(items@) == rule_items(lv.take(i as int)),
        decreases lines@.len() - i,
    {
        assert(lv.take(i + 1).drop_last() =~= lv.take(i as int));
        assert(!lone_quote_item(lv[i as int]));
        let ghost before = views(items@);
        match dash_item_exec(lines[i].as_slice()) {
            Some(x) => {
                items.push(x);
                assert(views(items@) =~= before.push(x@));
            },
            None => {},
        }
        i = i + 1;
    }
    assert(lv.take(lv.len() as int) =~= lv);
    let ghost iv = views(items@);
    let mut out: Vec<char> = Vec::new();
    let mut j: usize = 0;
    if ruleset_type == RulesetType::ClashClassical {
        while j < items.len()
            invariant
                j <= items@.len(),
                iv == views(items@),
                out@ == joined_lines(iv.take(j as int)),
            decreases items@.len() - j,
        {
            assert(iv.take(j + 1).drop_last() =~= iv.take(j as int));
            push_all(&mut out, items[j].as_slice());
            out.push('\n');
            j = j + 1;
            proof {
                reveal_strlit("\n");
            }
            assert(out@ =~= joined_lines(iv.take(j as int)));
        }
    } else {
        while j < items.len()
            invariant
                j <= items@.len(),
                iv == views(items@),
                out@ == surge_lines(iv.take(j as int)),
            decreases items@.len() - j,
        {
            assert(iv.take(j + 1).drop_last() =~= iv.take(j as int));
            let ghost before = out@;
            match surge_rule_exec(items[j].as_slice()) {
                Some(rule) => {
                    push_all(&mut out, rule.as_slice());
                    out.push('\n');
                    proof {
                        reveal_strlit("\n");
                    }
                    assert(out@ =~= before + (rule@ + "\n"@));
                },
                None => {
                    assert(out@ =~= before + Seq::<char>::empty());
                },
            }
            j = j + 1;
        }
    }
    assert(iv.take(iv.len() as int) =~= iv);
    string_of(out.as_slice())
}

/// Whether a list entry is a single quote character (see [`lone_quote_item`]).
fn lone_quote_exec(line: &[char]) -> (r: bool)
    ensures
        r == lone_quote_item(line@),
{
    let l = trim_chars(line);
    if l.len() == 0 || l[0] != '-' {
        return false;
    }
    let rest = slice_chars(l.as_slice(), 1, l.len());
    assert(rest@ =~= l@.skip(1));
    let rc = trim_chars(rest.as_slice());
    rc.len() == 1 && (rc[0] == '\'' || rc[0] == '"')
}

/// Whether [`convert_ruleset`] can convert `content` to `ruleset_type`: a
/// ruleset for the Surge dialect always, any other only as a Clash ruleset
/// with its `payload:` line whose entries can all be unquoted.
pub fn can_convert(content: &str, ruleset_type: RulesetType) -> (r: bool)
    ensures
        r == (ruleset_type == RulesetType::Surge || (payload_header(content@) && entries_unquotable(
            content@,
        ))),
{
    if ruleset_type == RulesetType::Surge {
        return true;
    }
    let chars = chars_of(content);
    proof {
        reveal_strlit("payload:\n");
        reveal_strlit("payload:\r\n");
    }
    if !(starts_with_str(chars.as_slice(), "payload:\n") || starts_with_str(
        chars.as_slice(),
        "payload:\r\n",
    )) {
        return false;
    }
    let tag = chars_of("payload:");
    proof {
        reveal_strlit("payload:");
    }
    let nothing: Vec<char> = Vec::new();
    let stripped = replace_all_exec(chars.as_slice(), tag.as_slice(), nothing.as_slice());
    assert(nothing@ =~= Seq::<char>::empty());
    let body = trim_chars(stripped.as_slice());
    let lines = split(body.as_slice(), '\n');
    let ghost lv = views(lines@);
    assert(lv == payload_lines(content@));
    let mut i: usize = 0;
    while i < lines.len()
        invariant
            i <= lines@.len(),
            lv == views(lines@),
            lv == payload_lines(content@),
            ruleset_type != RulesetType::Surge,
            payload_header(content@),
            forall|j: int| 0 <= j < i ==> !#[trigger] lone_quote_item(lv[j]),
        decreases lines@.len() - i,
    {
        if lone_quote_exec(lines[i].as_slice()) {
            assert(lone_quote_item(payload_lines(content@)[i as int]));
            return false;
        }
        i = i + 1;
    }
    true
}

} // verus!

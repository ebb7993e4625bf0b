//! Matching of numeric range expressions such as `443`, `1-100`, `>100`,
//! `>=100`, `<100` and `<=100` against a target value.
use crate::text::{
    all_digits, chars_of, contains_char, has_prefix, int_decimal, is_digit, lemma_nat_decimal_digits,
    lemma_split_concat, lemma_split_no_sep, nat_decimal, parse_i32, parse_i32_spec, slice_chars,
    split, split_char,
};
use vstd::prelude::*;

verus! {

/// The lower bound of a dash range part: its value, or `i32::MIN` when it
/// does not parse.
pub open spec fn bound_or(part: Seq<char>, default: i32) -> i32 {
    match parse_i32_spec(part) {
        Some(v) => v,
        None => default,
    }
}

/// What a range expression says of a target: an empty expression matches
/// everything; a number matches itself; `>n`, `>=n`, `<n`, `<=n` compare
/// (so `>-5` is the comparison with -5); `a-b` matches the closed interval
/// (an unparsable bound is open); anything else matches nothing.
pub open spec fn match_range_spec(range: Seq<char>, target: i32) -> bool {
    let parts = split_char(range, '-');
    if range.len() == 0 {
        true
    } else if parse_i32_spec(range) is Some {
        target == parse_i32_spec(range)->0
    } else if has_prefix(range, seq!['>']) && parse_i32_spec(range.skip(1)) is Some {
        target > parse_i32_spec(range.skip(1))->0
    } else if has_prefix(range, seq!['>', '=']) && parse_i32_spec(range.skip(2)) is Some {
        target >= parse_i32_spec(range.skip(2))->0
    } else if has_prefix(range, seq!['<']) && parse_i32_spec(range.skip(1)) is Some {
        target < parse_i32_spec(range.skip(1))->0
    } else if has_prefix(range, seq!['<', '=']) && parse_i32_spec(range.skip(2)) is Some {
        target <= parse_i32_spec(range.skip(2))->0
    } else if range.contains('-') && parts.len() == 2 {
        bound_or(parts[0], i32::MIN) <= target && target <= bound_or(parts[1], i32::MAX)
    } else {
        false
    }
}

/// Checks whether `target` lies in the range described by `range`.
pub fn match_range(range: &str, target: i32) -> (r: bool)
    ensures
        r == match_range_spec(range@, target),
{
    let s = chars_of(range);
    if s.len() == 0 {
        return true;
    }
    if let Some(value) = parse_i32(s.as_slice()) {
        return target == value;
    }
    let n = s.len();
    proof {
        lemma_prefix1(s@, '>');
        lemma_prefix1(s@, '<');
        lemma_prefix2(s@, '>', '=');
        lemma_prefix2(s@, '<', '=');
    }
    if s[0] == '>' {
        let rest = slice_chars(s.as_slice(), 1, n);
        assert(rest@ =~= s@.skip(1));
        assert(has_prefix(s@, seq!['>']));
        if let Some(value) = parse_i32(rest.as_slice()) {
            return target > value;
        }
    }
    if n >= 2 && s[0] == '>' && s[1] == '=' {
        let rest = slice_chars(s.as_slice(), 2, n);
        assert(rest@ =~= s@.skip(2));
        assert(has_prefix(s@, seq!['>', '=']));
        if let Some(value) = parse_i32(rest.as_slice()) {
            return target >= value;
        }
    }
    if s[0] == '<' {
        let rest = slice_chars(s.as_slice(), 1, n);
        assert(rest@ =~= s@.skip(1));
        assert(has_prefix(s@, seq!['<']));
        if let Some(value) = parse_i32(rest.as_slice()) {
            return target < value;
        }
    }
    if n >= 2 && s[0] == '<' && s[1] == '=' {
        let rest = slice_chars(s.as_slice(), 2, n);
        assert(rest@ =~= s@.skip(2));
        assert(has_prefix(s@, seq!['<', '=']));
        if let Some(value) = parse_i32(rest.as_slice()) {
            return target <= value;
        }
    }
    if contains_char(s.as_slice(), '-') {
        let parts = split(s.as_slice(), '-');
        if parts.len() == 2 {
            assert(parts@[0]@ == split_char(s@, '-')[0]);
            assert(parts@[1]@ == split_char(s@, '-')[1]);
            let start = match parse_i32(parts[0].as_slice()) {
                Some(v) => v,
                None => i32::MIN,
            };
            let end = match parse_i32(parts[1].as_slice()) {
                Some(v) => v,
                None => i32::MAX,
            };
            return target >= start && target <= end;
        }
    }
    false
}

/// A one-character prefix test is a test of the first character.
pub proof fn lemma_prefix1(s: Seq<char>, a: char)
    requires
        s.len() > 0,
    ensures
        has_prefix(s, seq![a]) == (s[0] == a),
{
    if s[0] == a {
        assert(s.take(1) =~= seq![a]);
    } else {
        assert(s.take(1)[0] == s[0]);
    }
}

/// A two-character prefix test is a test of the first two characters.
pub proof fn lemma_prefix2(s: Seq<char>, a: char, b: char)
    requires
        s.len() > 0,
    ensures
        has_prefix(s, seq![a, b]) == (s.len() >= 2 && s[0] == a && s[1] == b),
{
    if s.len() >= 2 && s[0] == a && s[1] == b {
        assert(s.take(2) =~= seq![a, b]);
    } else if has_prefix(s, seq![a, b]) {
        assert(s.take(2)[0] == s[0]);
        assert(s.take(2)[1] == s[1]);
    }
}

/// The decimal notation of a number parses back to that number.
pub proof fn lemma_parse_decimal(n: i32)
    ensures
        parse_i32_spec(int_decimal(n as int)) == Some(n),
{
    let m: nat = if n < 0 { (-(n as int)) as nat } else { n as nat };
    lemma_nat_decimal_digits(m);
    let d = nat_decimal(m);
    if n < 0 {
        let s = seq!['-'] + d;
        assert(s.skip(1) =~= d);
        assert(s[0] == '-');
    } else {
        assert(is_digit(d[0]));
    }
}

/// A non-negative decimal holds no sign character.
pub proof fn lemma_decimal_no_dash(n: nat)
    ensures
        !nat_decimal(n).contains('-'),
        !nat_decimal(n).contains('>'),
        !nat_decimal(n).contains('<'),
        !nat_decimal(n).contains('='),
{
    lemma_nat_decimal_digits(n);
    let d = nat_decimal(n);
    assert forall|c: char| !is_digit(c) implies !d.contains(c) by {
        if d.contains(c) {
            let i = choose|i: int| 0 <= i < d.len() && d[i] == c;
            assert(is_digit(d[i]));
        }
    }
}

/// A number as a range matches exactly that number.
pub proof fn law_match_range_single(n: i32, target: i32)
    ensures
        match_range_spec(int_decimal(n as int), target) == (target == n),
{
    lemma_parse_decimal(n);
    let m: nat = if n < 0 { (-(n as int)) as nat } else { n as nat };
    lemma_nat_decimal_digits(m);
}

/// An empty range matches every target.
pub proof fn law_match_range_empty(target: i32)
    ensures
        match_range_spec(Seq::<char>::empty(), target),
{
}

/// `a-b` with non-negative bounds matches exactly the targets from `a` to `b`.
pub proof fn law_match_range_interval(a: i32, b: i32, target: i32)
    requires
        a >= 0,
        b >= 0,
    ensures
        match_range_spec(
            nat_decimal(a as nat).push('-') + nat_decimal(b as nat),
            target,
        ) == (a <= target && target <= b),
{
    let da = nat_decimal(a as nat);
    let db = nat_decimal(b as nat);
    let s = da.push('-') + db;
    lemma_decimal_no_dash(a as nat);
    lemma_decimal_no_dash(b as nat);
    lemma_parse_decimal(a);
    lemma_parse_decimal(b);
    lemma_nat_decimal_digits(a as nat);
    lemma_split_concat(da, '-', db);
    lemma_split_no_sep(db, '-');
    assert(split_char(s, '-') =~= seq![da, db]);
    assert(s[da.len() as int] == '-');
    assert(s.contains('-'));
    assert(!all_digits(s)) by {
        assert(!is_digit(s[da.len() as int]));
    }
    assert(is_digit(s[0])) by {
        assert(s[0] == da[0]);
    }
    assert(parse_i32_spec(s) is None);
    lemma_prefix1(s, '>');
    lemma_prefix1(s, '<');
    lemma_prefix2(s, '>', '=');
    lemma_prefix2(s, '<', '=');
}

/// A text that starts with neither a sign nor a digit is no number.
proof fn lemma_no_number(x: Seq<char>)
    requires
        x.len() > 0,
        x[0] != '+' && x[0] != '-',
        !is_digit(x[0]),
    ensures
        parse_i32_spec(x) is None,
{
    assert(!all_digits(x));
}

/// `>n`, `>=n`, `<n` and `<=n` compare the target with `n`, for every `n`,
/// negative ones included.
pub proof fn law_match_range_compare(n: i32, target: i32)
    ensures
        match_range_spec(seq!['>'] + int_decimal(n as int), target) == (target > n),
        match_range_spec(seq!['>', '='] + int_decimal(n as int), target) == (target >= n),
        match_range_spec(seq!['<'] + int_decimal(n as int), target) == (target < n),
        match_range_spec(seq!['<', '='] + int_decimal(n as int), target) == (target <= n),
{
    let d = int_decimal(n as int);
    lemma_parse_decimal(n);
    let g = seq!['>'] + d;
    let ge = seq!['>', '='] + d;
    let l = seq!['<'] + d;
    let le = seq!['<', '='] + d;
    let eq = seq!['='] + d;
    assert(g.skip(1) =~= d);
    assert(l.skip(1) =~= d);
    assert(ge.skip(2) =~= d);
    assert(le.skip(2) =~= d);
    assert(ge.skip(1) =~= eq);
    assert(le.skip(1) =~= eq);
    lemma_no_number(g);
    lemma_no_number(ge);
    lemma_no_number(l);
    lemma_no_number(le);
    lemma_no_number(eq);
    lemma_prefix1(g, '>');
    lemma_prefix1(ge, '>');
    lemma_prefix1(l, '>');
    lemma_prefix1(le, '>');
    lemma_prefix1(l, '<');
    lemma_prefix1(le, '<');
    lemma_prefix2(ge, '>', '=');
    lemma_prefix2(le, '<', '=');
}

} // verus!

//! Textual network addresses.
use crate::text::{chars_of, all_digits, digits_value, is_digit, parse_i32, split, split_char, views};
use vstd::prelude::*;

verus! {

/// One part of a dotted IPv4 address: one to three decimal digits without a
/// leading zero (but for `0` itself), of value at most 255.
pub open spec fn is_octet(p: Seq<char>) -> bool {
    &&& 1 <= p.len() <= 3
    &&& all_digits(p)
    &&& (p.len() == 1 || p[0] != '0')
    &&& digits_value(p) <= 255
}

/// An IPv4 address in dotted-decimal notation: four octets between dots.
pub open spec fn ipv4_text(s: Seq<char>) -> bool {
    let parts = split_char(s, '.');
    parts.len() == 4 && forall|i: int| 0 <= i < 4 ==> #[trigger] is_octet(parts[i])
}

/// Whether `p` is one part of a dotted IPv4 address (see [`is_octet`]).
fn octet_exec(p: &[char]) -> (r: bool)
    ensures
        r == is_octet(p@),
{
    if p.len() < 1 || p.len() > 3 {
        return false;
    }
    let mut i: usize = 0;
    while i < p.len()
        invariant
            i <= p@.len(),
            forall|j: int| 0 <= j < i ==> is_digit(#[trigger] p@[j]),
        decreases p@.len() - i,
    {
        if !('0' <= p[i] && p[i] <= '9') {
            assert(!is_digit(p@[i as int]));
            return false;
        }
        i = i + 1;
    }
    assert(all_digits(p@));
    if p.len() > 1 && p[0] == '0' {
        return false;
    }
    assert(p@[0] != '+' && p@[0] != '-') by {
        assert(is_digit(p@[0]));
    }
    proof {
        crate::text::lemma_digits_value_mono(p@, p@.len() as int);
    }
    match parse_i32(p) {
        Some(v) => v <= 255,
        None => false,
    }
}

/// Whether the characters `s` are an IPv4 address in dotted-decimal
/// notation (see [`ipv4_text`]).
pub(crate) fn ipv4_chars(s: &[char]) -> (r: bool)
    ensures
        r == ipv4_text(s@),
{
    let parts = split(s, '.');
    let ghost pv = views(parts@);
    assert(pv.len() == parts@.len());
    if parts.len() != 4 {
        return false;
    }
    let mut i: usize = 0;
    while i < 4
        invariant
            i <= 4,
            parts@.len() == 4,
            pv == views(parts@),
            pv == split_char(s@, '.'),
            forall|j: int| 0 <= j < i ==> #[trigger] is_octet(pv[j]),
        decreases 4 - i,
    {
        if !octet_exec(parts[i].as_slice()) {
            assert(!is_octet(pv[i as int]));
            return false;
        }
        i = i + 1;
    }
    true
}

/// Whether `s` is an IPv4 address in dotted-decimal notation (see [`ipv4_text`]).
pub fn is_ipv4(s: &str) -> (r: bool)
    ensures
        r == ipv4_text(s@),
{
    let c = chars_of(s);
    ipv4_chars(c.as_slice())
}

} // verus!

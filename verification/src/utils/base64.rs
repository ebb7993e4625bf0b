//! Base64 encoding of text, plain and URL-safe.
use crate::text::string_of;
use vstd::utf8::encode_utf8;
use vstd::prelude::*;

verus! {

/// The digit of a 6-bit value in the standard base64 alphabet.
pub open spec fn b64_digit(v: int) -> char {
    if v < 26 {
        (65 + v) as char
    } else if v < 52 {
        (97 + v - 26) as char
    } else if v < 62 {
        (48 + v - 52) as char
    } else if v == 62 {
        '+'
    } else {
        '/'
    }
}

/// The four digits of three bytes.
pub open spec fn b64_group(x: u8, y: u8, z: u8) -> Seq<char> {
    let (a, b, c) = (x as int, y as int, z as int);
    seq![
        b64_digit(a / 4),
        b64_digit((a % 4) * 16 + b / 16),
        b64_digit((b % 16) * 4 + c / 64),
        b64_digit(c % 64),
    ]
}

/// The standard base64 encoding of `bytes`, padded with `=` to a multiple
/// of four digits.
pub open spec fn base64(bytes: Seq<u8>) -> Seq<char>
    decreases bytes.len(),
{
    if bytes.len() == 0 {
        Seq::empty()
    } else if bytes.len() == 1 {
        let a = bytes[0] as int;
        seq![b64_digit(a / 4), b64_digit((a % 4) * 16), '=', '=']
    } else if bytes.len() == 2 {
        let (a, b) = (bytes[0] as int, bytes[1] as int);
        seq![b64_digit(a / 4), b64_digit((a % 4) * 16 + b / 16), b64_digit((b % 16) * 4), '=']
    } else {
        b64_group(bytes[0], bytes[1], bytes[2]) + base64(bytes.skip(3))
    }
}

/// Base64 text made URL-safe: `-` for `+`, `_` for `/`, and no padding.
pub open spec fn url_safe(s: Seq<char>) -> Seq<char>
    decreases s.len(),
{
    if s.len() == 0 {
        Seq::empty()
    } else {
        (if s[0] == '+' {
            seq!['-']
        } else if s[0] == '/' {
            seq!['_']
        } else if s[0] == '=' {
            Seq::empty()
        } else {
            seq![s[0]]
        }) + url_safe(s.skip(1))
    }
}

/// The digit of a 6-bit value (see [`b64_digit`]).
fn digit(v: u8) -> (c: char)
    requires
        v < 64,
    ensures
        c == b64_digit(v as int),
{
    if v < 26 {
        (65 + v) as char
    } else if v < 52 {
        (97 + v - 26) as char
    } else if v < 62 {
        (48 + v - 52) as char
    } else if v == 62 {
        '+'
    } else {
        '/'
    }
}

/// The standard base64 encoding of the UTF-8 bytes of a text (see
/// [`base64`]).
pub fn base64_encode(input: &str) -> (r: String)
    ensures
        r@ == base64(encode_utf8(input@)),
{
    let bytes = input.as_bytes();
    let ghost bs = bytes@;
    let mut out: Vec<char> = Vec::new();
    let mut i: usize = 0;
    assert(bs.skip(0) =~= bs);
    assert(out@ + base64(bs) =~= base64(bs));
    while bytes.len() - i >= 3
        invariant
            bs == bytes@,
            i <= bs.len(),
            out@ + base64(bs.skip(i as int)) == base64(bs),
        decreases bs.len() - i,
    {
        let a = bytes[i];
        let b = bytes[i + 1];
        let c = bytes[i + 2];
        let ghost rest = bs.skip(i as int);
        assert(rest.skip(3) =~= bs.skip(i + 3));
        assert(rest[0] == a && rest[1] == b && rest[2] == c);
        let ghost before = out@;
        out.push(digit(a / 4));
        out.push(digit((a % 4) * 16 + b / 16));
        out.push(digit((b % 16) * 4 + c / 64));
        out.push(digit(c % 64));
        assert(out@ =~= before + b64_group(a, b, c));
        i = i + 3;
    }
    let ghost rest = bs.skip(i as int);
    let left = bytes.len() - i;
    if left == 1 {
        let a = bytes[i];
        assert(rest[0] == a);
        out.push(digit(a / 4));
        out.push(digit((a % 4) * 16));
        out.push('=');
        out.push('=');
    } else if left == 2 {
        let a = bytes[i];
        let b = bytes[i + 1];
        assert(rest[0] == a && rest[1] == b);
        out.push(digit(a / 4));
        out.push(digit((a % 4) * 16 + b / 16));
        out.push(digit((b % 16) * 4));
        out.push('=');
    }
    assert(out@ =~= base64(bs));
    string_of(out.as_slice())
}

/// Base64 text made URL-safe (see [`url_safe`]).
pub fn url_safe_base64_apply(input: &str) -> (r: String)
    ensures
        r@ == url_safe(input@),
{
    let s = crate::text::chars_of(input);
    let mut out: Vec<char> = Vec::new();
    let mut i: usize = 0;
    assert(s@.skip(0) =~= s@);
    assert(out@ + url_safe(s@) =~= url_safe(s@));
    while i < s.len()
        invariant
            i <= s@.len(),
            out@ + url_safe(s@.skip(i as int)) == url_safe(s@),
        decreases s@.len() - i,
    {
        let c = s[i];
        assert(s@.skip(i as int).skip(1) =~= s@.skip(i + 1));
        let ghost before = out@;
        if c == '+' {
            out.push('-');
        } else if c == '/' {
            out.push('_');
        } else if c != '=' {
            out.push(c);
        }
        assert(out@ + url_safe(s@.skip(i + 1)) =~= before + url_safe(s@.skip(i as int)));
        i = i + 1;
    }
    assert(s@.skip(i as int) =~= Seq::<char>::empty());
    string_of(out.as_slice())
}

/// The URL-safe base64 encoding of the UTF-8 bytes of a text: standard
/// base64 with `-` and `_` for `+` and `/`, and no padding.
pub fn url_safe_base64_encode(input: &str) -> (r: String)
    ensures
        r@ == url_safe(base64(encode_utf8(input@))),
{
    let b = base64_encode(input);
    url_safe_base64_apply(b.as_str())
}

/// URL-safe base64 text holds none of `+`, `/` and `=`.
pub proof fn law_url_safe_alphabet(s: Seq<char>)
    ensures
        forall|i: int| 0 <= i < url_safe(s).len() ==> {
            let c = #[trigger] url_safe(s)[i];
            c != '+' && c != '/' && c != '='
        },
    decreases s.len(),
{
    if s.len() > 0 {
        law_url_safe_alphabet(s.skip(1));
        let head = if s[0] == '+' {
            seq!['-']
        } else if s[0] == '/' {
            seq!['_']
        } else if s[0] == '=' {
            Seq::<char>::empty()
        } else {
            seq![s[0]]
        };
        assert(url_safe(s) == head + url_safe(s.skip(1)));
        assert forall|i: int| 0 <= i < url_safe(s).len() implies {
            let c = #[trigger] url_safe(s)[i];
            c != '+' && c != '/' && c != '='
        } by {
            if i >= head.len() {
                assert(url_safe(s)[i] == url_safe(s.skip(1))[i - head.len()]);
            }
        }
    }
}

/// Base64 text has four digits for every three bytes begun.
pub proof fn law_base64_length(bytes: Seq<u8>)
    ensures
        base64(bytes).len() == 4 * ((bytes.len() + 2) / 3),
    decreases bytes.len(),
{
    if bytes.len() >= 3 {
        law_base64_length(bytes.skip(3));
    }
}

} // verus!

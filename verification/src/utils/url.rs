//! Arguments of URL query strings.
use crate::text::{chars_of, find_char, has_prefix, occurs_at, slice_chars, starts_with_str, string_of};
use vstd::prelude::*;
use vstd::utf8::encode_utf8;

verus! {

/// The text of `s` before its first `c` (all of `s` where it has none).
pub open spec fn before_char(s: Seq<char>, c: char) -> Seq<char>
    decreases s.len(),
{
    if s.len() == 0 {
        s
    } else if s[0] == c {
        Seq::empty()
    } else {
        seq![s[0]] + before_char(s.skip(1), c)
    }
}

/// `pat` stands at index `p` of `s`, at the start or right after `&` or `?`.
pub open spec fn arg_at(s: Seq<char>, pat: Seq<char>, p: int) -> bool {
    &&& 0 <= p
    &&& p + pat.len() <= s.len()
    &&& s.subrange(p, p + pat.len()) =~= pat
    &&& (p == 0 || s[p - 1] == '&' || s[p - 1] == '?')
}

/// The last index below `n` at which `pat` stands as an argument, or -1.
pub open spec fn last_arg(s: Seq<char>, pat: Seq<char>, n: nat) -> int
    decreases n,
{
    if n == 0 {
        -1
    } else if arg_at(s, pat, n - 1) {
        n - 1
    } else {
        last_arg(s, pat, (n - 1) as nat)
    }
}

/// The value of the argument `key` of a query string: the text after the
/// last `key=` that starts the string or follows `&` or `?`, up to the next
/// `&`; empty where there is no such argument.
pub open spec fn url_arg(s: Seq<char>, key: Seq<char>) -> Seq<char> {
    let pat = key + "="@;
    let p = last_arg(s, pat, s.len());
    if p < 0 {
        Seq::empty()
    } else {
        before_char(s.skip(p + pat.len()), '&')
    }
}

/// The last argument position is a position of the argument, and none
/// comes after it below `n`.
proof fn lemma_last_arg(s: Seq<char>, pat: Seq<char>, n: nat)
    ensures
        last_arg(s, pat, n) >= 0 ==> last_arg(s, pat, n) < n && arg_at(s, pat, last_arg(s, pat, n)),
    decreases n,
{
    if n > 0 {
        lemma_last_arg(s, pat, (n - 1) as nat);
    }
}

/// The text before the first `c` is the prefix up to an index `i` at which
/// `c` stands (or the end), with no `c` before it.
proof fn lemma_before_char(s: Seq<char>, c: char, i: int)
    requires
        0 <= i <= s.len(),
        forall|j: int| 0 <= j < i ==> s[j] != c,
        i == s.len() || s[i] == c,
    ensures
        before_char(s, c) == s.take(i),
    decreases i,
{
    if i == 0 {
        if s.len() > 0 {
            assert(s[0] == c);
        }
        assert(s.take(0) =~= Seq::<char>::empty());
        if s.len() == 0 {
            assert(s =~= Seq::<char>::empty());
        }
    } else {
        let t = s.skip(1);
        assert forall|j: int| 0 <= j < i - 1 implies t[j] != c by {
            assert(t[j] == s[j + 1]);
        }
        if i - 1 < t.len() {
            assert(t[i - 1] == s[i]);
        }
        lemma_before_char(t, c, i - 1);
        assert(s.take(i) =~= seq![s[0]] + t.take(i - 1));
    }
}

/// Whether `pat` stands at index `p` of `s` as an argument (see [`arg_at`]).
fn arg_at_exec(s: &[char], pat: &[char], p: usize) -> (r: bool)
    ensures
        r == arg_at(s@, pat@, p as int),
{
    if pat.len() > s.len() || p > s.len() - pat.len() {
        return false;
    }
    if !occurs_at(s, pat, p) {
        return false;
    }
    p == 0 || s[p - 1] == '&' || s[p - 1] == '?'
}

/// The last position of `s` at which `pat` stands as an argument.
fn last_arg_exec(s: &[char], pat: &[char]) -> (r: Option<usize>)
    ensures
        match r {
            Some(p) => last_arg(s@, pat@, s@.len()) == p,
            None => last_arg(s@, pat@, s@.len()) == -1,
        },
{
    let mut n: usize = s.len();
    while n > 0
        invariant
            n <= s@.len(),
            last_arg(s@, pat@, s@.len()) == last_arg(s@, pat@, n as nat),
        decreases n,
    {
        if arg_at_exec(s, pat, n - 1) {
            return Some(n - 1);
        }
        n = n - 1;
    }
    None
}

/// The value of the argument `request` of the query string `url` (see
/// [`url_arg`]).
pub fn get_url_arg(url: &str, request: &str) -> (r: String)
    ensures
        r@ == url_arg(url@, request@),
{
    let s = chars_of(url);
    let mut pat = chars_of(request);
    pat.push('=');
    proof {
        reveal_strlit("=");
    }
    assert(pat@ =~= request@ + "="@);
    let ghost pv = pat@;
    let found = last_arg_exec(s.as_slice(), pat.as_slice());
    proof {
        lemma_last_arg(s@, pv, s@.len());
    }
    match found {
        None => String::new(),
        Some(p) => {
            let total = s.len();
            assert(p + pat@.len() <= total) by {
                assert(arg_at(s@, pv, p as int));
            }
            let start = p + pat.len();
            let rest = slice_chars(s.as_slice(), start, s.len());
            assert(rest@ =~= s@.skip(start as int));
            let end = match find_char(rest.as_slice(), '&') {
                Some(i) => i,
                None => rest.len(),
            };
            let value = slice_chars(rest.as_slice(), 0, end);
            proof {
                assert forall|j: int| 0 <= j < end implies rest@[j] != '&' by {
                    if rest@[j] == '&' {
                        assert(rest@.take(end as int)[j] == '&');
                    }
                }
                lemma_before_char(rest@, '&', end as int);
                assert(value@ =~= rest@.take(end as int));
            }
            string_of(value.as_slice())
        },
    }
}

/// A byte that stays as it is in a URL: an ASCII letter or digit, `-`,
/// `_`, `.` or `~`.
pub open spec fn url_unreserved(b: u8) -> bool {
    ||| 48 <= b <= 57
    ||| 65 <= b <= 90
    ||| 97 <= b <= 122
    ||| b == 45
    ||| b == 95
    ||| b == 46
    ||| b == 126
}

/// The upper-case hexadecimal digit of a value below 16.
pub open spec fn hex_upper(v: int) -> char {
    if v < 10 {
        (48 + v) as char
    } else {
        (55 + v) as char
    }
}

/// Percent-encoding of bytes: each byte that is not unreserved is written
/// as `%` and two upper-case hexadecimal digits.
pub open spec fn url_escape(bytes: Seq<u8>) -> Seq<char>
    decreases bytes.len(),
{
    if bytes.len() == 0 {
        Seq::empty()
    } else {
        let b = bytes[0];
        (if url_unreserved(b) {
            seq![b as char]
        } else {
            seq!['%', hex_upper(b as int / 16), hex_upper(b as int % 16)]
        }) + url_escape(bytes.skip(1))
    }
}

/// The hexadecimal digit of a value below 16 (see [`hex_upper`]).
fn hex_digit(v: u8) -> (c: char)
    requires
        v < 16,
    ensures
        c == hex_upper(v as int),
{
    if v < 10 {
        (48 + v) as char
    } else {
        (55 + v) as char
    }
}

/// The percent-encoding of the UTF-8 bytes of a text (see [`url_escape`]).
pub fn url_encode(input: &str) -> (r: String)
    ensures
        r@ == url_escape(encode_utf8(input@)),
{
    let bytes = input.as_bytes();
    let ghost bs = bytes@;
    let mut out: Vec<char> = Vec::new();
    let mut i: usize = 0;
    assert(bs.skip(0) =~= bs);
    assert(out@ + url_escape(bs) =~= url_escape(bs));
    while i < bytes.len()
        invariant
            bs == bytes@,
            i <= bs.len(),
            out@ + url_escape(bs.skip(i as int)) == url_escape(bs),
        decreases bs.len() - i,
    {
        let b = bytes[i];
        assert(bs.skip(i as int).skip(1) =~= bs.skip(i + 1));
        assert(bs.skip(i as int)[0] == b);
        let ghost before = out@;
        if (48 <= b && b <= 57) || (65 <= b && b <= 90) || (97 <= b && b <= 122) || b == 45 || b == 95
            || b == 46 || b == 126 {
            out.push(b as char);
        } else {
            out.push('%');
            out.push(hex_digit(b / 16));
            out.push(hex_digit(b % 16));
        }
        assert(out@ + url_escape(bs.skip(i + 1)) =~= before + url_escape(bs.skip(i as int)));
        i = i + 1;
    }
    assert(bs.skip(i as int) =~= Seq::<u8>::empty());
    string_of(out.as_slice())
}

/// A path that is a link rather than a file: it starts with `https://`,
/// `http://` or `data:`.
pub open spec fn link_text(path: Seq<char>) -> bool {
    has_prefix(path, "https://"@) || has_prefix(path, "http://"@) || has_prefix(path, "data:"@)
}

/// Whether a path is a link (see [`link_text`]).
pub fn is_link(path: &str) -> (r: bool)
    ensures
        r == link_text(path@),
{
    let c = chars_of(path);
    starts_with_str(c.as_slice(), "https://") || starts_with_str(c.as_slice(), "http://")
        || starts_with_str(c.as_slice(), "data:")
}

/// A character that percent-encoded text may hold: an ASCII letter or
/// digit, `-`, `_`, `.`, `~` or `%`.
pub open spec fn url_char(c: char) -> bool {
    ||| ('0' <= c && c <= '9')
    ||| ('A' <= c && c <= 'Z')
    ||| ('a' <= c && c <= 'z')
    ||| c == '-'
    ||| c == '_'
    ||| c == '.'
    ||| c == '~'
    ||| c == '%'
}

/// Percent-encoded text holds only letters, digits, `-`, `_`, `.`, `~` and
/// `%`: nothing that a URL would read as a separator.
pub proof fn law_url_escape_chars(bytes: Seq<u8>)
    ensures
        forall|i: int| 0 <= i < url_escape(bytes).len() ==> url_char(#[trigger] url_escape(bytes)[i]),
    decreases bytes.len(),
{
    if bytes.len() > 0 {
        law_url_escape_chars(bytes.skip(1));
        let b = bytes[0];
        let head = if url_unreserved(b) {
            seq![b as char]
        } else {
            seq!['%', hex_upper(b as int / 16), hex_upper(b as int % 16)]
        };
        assert(url_escape(bytes) == head + url_escape(bytes.skip(1)));
        assert forall|i: int| 0 <= i < head.len() implies url_char(#[trigger] head[i]) by {
            if !url_unreserved(b) && i > 0 {
                assert(0 <= b as int / 16 < 16);
                assert(0 <= b as int % 16 < 16);
            }
        }
        assert forall|i: int| 0 <= i < url_escape(bytes).len() implies url_char(
            #[trigger] url_escape(bytes)[i],
        ) by {
            if i < head.len() {
                assert(url_escape(bytes)[i] == head[i]);
            } else {
                assert(url_escape(bytes)[i] == url_escape(bytes.skip(1))[i - head.len()]);
            }
        }
    }
}

/// The text before the first `c` holds no `c`.
proof fn lemma_before_char_free(s: Seq<char>, c: char)
    ensures
        !before_char(s, c).contains(c),
    decreases s.len(),
{
    if s.len() > 0 && s[0] != c {
        lemma_before_char_free(s.skip(1), c);
        let t = before_char(s.skip(1), c);
        assert(before_char(s, c) == seq![s[0]] + t);
        if (seq![s[0]] + t).contains(c) {
            let k = choose|k: int| 0 <= k < (seq![s[0]] + t).len() && (seq![s[0]] + t)[k] == c;
            assert(k > 0);
            assert(t[k - 1] == c);
        }
    }
}

/// The value of an argument never holds `&`: it ends where the next
/// argument begins.
pub proof fn law_url_arg_unbroken(s: Seq<char>, key: Seq<char>)
    ensures
        !url_arg(s, key).contains('&'),
{
    let pat = key + "="@;
    let p = last_arg(s, pat, s.len());
    if p >= 0 {
        lemma_before_char_free(s.skip(p + pat.len()), '&');
    }
}

} // verus!

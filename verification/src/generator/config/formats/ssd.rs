//! The SSD subscription format: which nodes it carries and the texts it
//! derives from the subscription's user information.
use super::surge::txt;
use crate::models::proxy::{Proxy, ProxyType};
use crate::text::{
    all_digits, chars_of, digits_value, is_digit, lemma_digits_value_mono, nat_decimal, ov, push_all,
    push_str, replace_all, replace_all_exec, string_of, u64_decimal,
};
use crate::utils::url::{get_url_arg, url_arg};
use vstd::prelude::*;

verus! {

/// A server entry of an SSD subscription. Shadowsocks entries carry their
/// plugin and its options; entries from ShadowsocksR nodes carry neither.
#[derive(Debug, Clone)]
pub struct SsdServer {
    pub server: String,
    pub port: u16,
    pub encryption: Option<String>,
    pub password: Option<String>,
    pub plugin: Option<String>,
    pub plugin_options: Option<String>,
    pub remarks: String,
    pub id: i32,
}

/// The ciphers with which a ShadowsocksR node can be carried as
/// Shadowsocks in SSD.
pub open spec fn ssd_cipher(m: Seq<char>) -> bool {
    m == "aes-128-gcm"@ || m == "aes-192-gcm"@ || m == "aes-256-gcm"@ || m
        == "chacha20-ietf-poly1305"@
}

/// Whether SSD carries a node: every Shadowsocks node, and a ShadowsocksR
/// node with one of the [`ssd_cipher`]s, protocol `origin` and obfuscation
/// `plain`.
pub open spec fn ssd_selected(n: Proxy) -> bool {
    ||| n.proxy_type == ProxyType::Shadowsocks
    ||| (n.proxy_type == ProxyType::ShadowsocksR && ssd_cipher(txt(n.encrypt_method)) && txt(
        n.protocol,
    ) == "origin"@ && txt(n.obfs) == "plain"@)
}

/// The nodes that SSD carries, in order.
pub open spec fn ssd_selection(nodes: Seq<Proxy>) -> Seq<Proxy>
    decreases nodes.len(),
{
    if nodes.len() == 0 {
        Seq::empty()
    } else if ssd_selected(nodes.last()) {
        ssd_selection(nodes.drop_last()).push(nodes.last())
    } else {
        ssd_selection(nodes.drop_last())
    }
}

/// The entry of the `id`-th carried node: its server, port, cipher,
/// password and remark; for Shadowsocks also its plugin (`obfs-local`
/// written as `simple-obfs`, empty where none) and plugin options.
pub open spec fn ssd_entry(e: SsdServer, n: Proxy, id: int) -> bool {
    &&& e.server@ == n.hostname@
    &&& e.port == n.port
    &&& ov(e.encryption) == ov(n.encrypt_method)
    &&& ov(e.password) == ov(n.password)
    &&& e.remarks@ == n.remark@
    &&& e.id == id
    &&& if n.proxy_type == ProxyType::Shadowsocks {
        &&& ov(e.plugin) == Some(
            if txt(n.plugin) == "obfs-local"@ {
                "simple-obfs"@
            } else {
                txt(n.plugin)
            },
        )
        &&& ov(e.plugin_options) == Some(txt(n.plugin_option))
    } else {
        e.plugin is None && e.plugin_options is None
    }
}

/// Whether SSD carries a node (see [`ssd_selected`]).
fn ssd_selected_exec(n: &Proxy) -> (r: bool)
    ensures
        r == ssd_selected(*n),
{
    if n.proxy_type == ProxyType::Shadowsocks {
        return true;
    }
    if n.proxy_type != ProxyType::ShadowsocksR {
        return false;
    }
    let m = super::surge::txt_exec(&n.encrypt_method);
    let p = super::surge::txt_exec(&n.protocol);
    let o = super::surge::txt_exec(&n.obfs);
    let cipher = crate::text::eq_str(m.as_slice(), "aes-128-gcm") || crate::text::eq_str(
        m.as_slice(),
        "aes-192-gcm",
    ) || crate::text::eq_str(m.as_slice(), "aes-256-gcm") || crate::text::eq_str(
        m.as_slice(),
        "chacha20-ietf-poly1305",
    );
    cipher && crate::text::eq_str(p.as_slice(), "origin") && crate::text::eq_str(o.as_slice(), "plain")
}

/// The server entries of an SSD subscription for the nodes (see
/// [`ssd_selection`] and [`ssd_entry`]), numbered from 0.
pub fn ssd_servers(nodes: &Vec<Proxy>) -> (r: Vec<SsdServer>)
    requires
        nodes@.len() <= i32::MAX,
    ensures
        r@.len() == ssd_selection(nodes@).len(),
        forall|i: int| 0 <= i < r@.len() ==> ssd_entry(#[trigger] r@[i], ssd_selection(nodes@)[i], i),
{
    let mut out: Vec<SsdServer> = Vec::new();
    let mut i: usize = 0;
    assert(nodes@.take(0) =~= Seq::<Proxy>::empty());
    while i < nodes.len()
        invariant
            i <= nodes@.len(),
            nodes@.len() <= i32::MAX,
            out@.len() == ssd_selection(nodes@.take(i as int)).len(),
            out@.len() <= i,
            forall|k: int| 0 <= k < out@.len() ==> ssd_entry(#[trigger] out@[k], ssd_selection(nodes@.take(i as int))[k], k),
        decreases nodes@.len() - i,
    {
        assert(nodes@.take(i + 1).drop_last() =~= nodes@.take(i as int));
        assert(nodes@.take(i + 1).last() == nodes@[i as int]);
        let n = &nodes[i];
        let ghost prev = ssd_selection(nodes@.take(i as int));
        if ssd_selected_exec(n) {
            let id = out.len() as i32;
            let ghost before = out@;
            let (plugin, plugin_options) = if n.proxy_type == ProxyType::Shadowsocks {
                let p = super::surge::txt_exec(&n.plugin);
                let name = if crate::text::eq_str(p.as_slice(), "obfs-local") {
                    "simple-obfs".to_owned()
                } else {
                    string_of(p.as_slice())
                };
                let o = super::surge::txt_exec(&n.plugin_option);
                (Some(name), Some(string_of(o.as_slice())))
            } else {
                (None, None)
            };
            out.push(
                SsdServer {
                    server: n.hostname.clone(),
                    port: n.port,
                    encryption: crate::text::clone_opt(&n.encrypt_method),
                    password: crate::text::clone_opt(&n.password),
                    plugin,
                    plugin_options,
                    remarks: n.remark.clone(),
                    id,
                },
            );
            assert(ssd_selection(nodes@.take(i + 1)) == prev.push(nodes@[i as int]));
            assert forall|k: int| 0 <= k < out@.len() implies ssd_entry(
                #[trigger] out@[k],
                ssd_selection(nodes@.take(i + 1))[k],
                k,
            ) by {
                if k < out@.len() - 1 {
                    assert(out@[k] == before[k]);
                }
            }
        }
        i = i + 1;
    }
    assert(nodes@.take(i as int) =~= nodes@);
    out
}

// ---------------------------------------------------------------------------
// User information
// ---------------------------------------------------------------------------
/// The name of the airport: the group, `SSD` where it is empty.
pub fn ssd_airport(group: &str) -> (r: String)
    ensures
        r@ == (if group@.len() == 0 {
            "SSD"@
        } else {
            group@
        }),
{
    if group.is_empty() {
        "SSD".to_owned()
    } else {
        group.to_owned()
    }
}

/// The user information of a subscription as a query string: `; `
/// separators become `&`.
pub open spec fn userinfo_query(userinfo: Seq<char>) -> Seq<char> {
    replace_all(userinfo, "; "@, "&"@)
}

/// The upload, download, total and expiry arguments of a subscription's
/// user information such as `upload=1; download=2; total=3; expire=4`.
pub fn ssd_userinfo_args(userinfo: &str) -> (r: (String, String, String, String))
    ensures
        r.0@ == url_arg(userinfo_query(userinfo@), "upload"@),
        r.1@ == url_arg(userinfo_query(userinfo@), "download"@),
        r.2@ == url_arg(userinfo_query(userinfo@), "total"@),
        r.3@ == url_arg(userinfo_query(userinfo@), "expire"@),
{
    let u = chars_of(userinfo);
    let sep = chars_of("; ");
    let amp = chars_of("&");
    proof {
        reveal_strlit("; ");
    }
    let q = replace_all_exec(u.as_slice(), sep.as_slice(), amp.as_slice());
    let qs = string_of(q.as_slice());
    (
        get_url_arg(qs.as_str(), "upload"),
        get_url_arg(qs.as_str(), "download"),
        get_url_arg(qs.as_str(), "total"),
        get_url_arg(qs.as_str(), "expire"),
    )
}

/// The seconds since 1970 that an expiry argument gives: an optional sign
/// and decimal digits, read as a 64-bit signed number that must not be
/// negative (a time before 1970 has no date here); `None` otherwise.
pub open spec fn expiry_secs(s: Seq<char>) -> Option<nat> {
    let signed = s.len() > 0 && (s[0] == '+' || s[0] == '-');
    let body = if signed {
        s.skip(1)
    } else {
        s
    };
    if !all_digits(body) {
        None
    } else if s[0] == '-' {
        if digits_value(body) == 0 {
            Some(0)
        } else {
            None
        }
    } else if digits_value(body) <= i64::MAX {
        Some(digits_value(body))
    } else {
        None
    }
}

/// The seconds that an expiry argument gives (see [`expiry_secs`]).
pub fn ssd_expiry_secs(s: &str) -> (r: Option<u64>)
    ensures
        match r {
            Some(v) => expiry_secs(s@) == Some(v as nat),
            None => expiry_secs(s@) is None,
        },
{
    let c = chars_of(s);
    let signed = c.len() > 0 && (c[0] == '+' || c[0] == '-');
    let neg = c.len() > 0 && c[0] == '-';
    let start: usize = if signed {
        1
    } else {
        0
    };
    let ghost body = if signed {
        c@.skip(1)
    } else {
        c@
    };
    assert(body =~= c@.skip(start as int));
    if start >= c.len() {
        assert(body.len() == 0);
        return None;
    }
    let mut acc: u128 = 0;
    let mut i: usize = start;
    while i < c.len()
        invariant
            start <= i <= c@.len(),
            start < c@.len(),
            c@ == s@,
            body =~= c@.skip(start as int),
            body == (if c@.len() > 0 && (c@[0] == '+' || c@[0] == '-') {
                c@.skip(1)
            } else {
                c@
            }),
            forall|j: int| start <= j < i ==> is_digit(#[trigger] c@[j]),
            acc as nat == digits_value(body.take(i - start)),
            acc <= 9223372036854775808,
        decreases c@.len() - i,
    {
        let ch = c[i];
        if !('0' <= ch && ch <= '9') {
            assert(body[i - start] == ch);
            assert(!all_digits(body));
            return None;
        }
        let d = ((ch as u32) - 48) as u128;
        assert(body.take(i + 1 - start).drop_last() =~= body.take(i - start));
        assert(body.take(i + 1 - start).last() == ch);
        let next = acc * 10 + d;
        assert(next as nat == digits_value(body.take(i + 1 - start)));
        i = i + 1;
        if next > 9223372036854775808 {
            assert(forall|j: int| 0 <= j < i - start ==> is_digit(#[trigger] body.take(i - start)[j]));
            proof {
                if all_digits(body) {
                    lemma_digits_value_mono(body, i - start);
                    assert(digits_value(body) > 9223372036854775808);
                }
            }
            return None;
        }
        acc = next;
    }
    assert(body.take(c@.len() - start) =~= body);
    assert(all_digits(body));
    if neg {
        if acc == 0 {
            Some(0)
        } else {
            None
        }
    } else if acc > 9223372036854775807 {
        None
    } else {
        Some(acc as u64)
    }
}

/// Decimal digits of `n`, padded with zeros to at least `w` digits.
pub open spec fn zero_pad(n: nat, w: nat) -> Seq<char> {
    let d = nat_decimal(n);
    if d.len() < w {
        Seq::new((w - d.len()) as nat, |i: int| '0') + d
    } else {
        d
    }
}

/// The expiry date of SSD for a time in seconds since 1970, counting years
/// of 365 days and months of 30: `YYYY-MM-DD hh:mm`.
pub open spec fn expiry_text(secs: nat) -> Seq<char> {
    let days = secs / 86400;
    let in_year = days % 365;
    zero_pad(1970 + days / 365, 4) + "-"@ + zero_pad(in_year / 30 + 1, 2) + "-"@ + zero_pad(
        in_year % 30 + 1,
        2,
    ) + " "@ + zero_pad((secs / 3600) % 24, 2) + ":"@ + zero_pad((secs / 60) % 60, 2)
}

/// Appends `n` padded with zeros to `w` digits (see [`zero_pad`]).
fn push_padded(v: &mut Vec<char>, n: u64, w: usize)
    ensures
        final(v)@ == old(v)@ + zero_pad(n as nat, w as nat),
{
    let d = u64_decimal(n);
    let mut k: usize = d.len();
    let ghost start = v@.len();
    while k < w
        invariant
            d.len() <= k <= w || (k == d.len() && k >= w),
            v@.len() == start + (k - d.len()),
            v@.subrange(0, start as int) == old(v)@,
            forall|j: int| start <= j < v@.len() ==> v@[j] == '0',
        decreases w - k,
    {
        v.push('0');
        k = k + 1;
    }
    let ghost pad = v@.subrange(start as int, v@.len() as int);
    assert(v@ =~= old(v)@ + pad);
    push_all(v, d.as_slice());
    if d.len() < w {
        assert(pad =~= Seq::new((w - d@.len()) as nat, |i: int| '0'));
    } else {
        assert(pad =~= Seq::<char>::empty());
    }
    assert(v@ =~= old(v)@ + zero_pad(n as nat, w as nat));
}

/// The expiry date of SSD for a time in seconds (see [`expiry_text`]).
pub fn ssd_expiry(secs: u64) -> (r: String)
    ensures
        r@ == expiry_text(secs as nat),
{
    let days = secs / 86400;
    let in_year = days % 365;
    let mut v: Vec<char> = Vec::new();
    push_padded(&mut v, 1970 + days / 365, 4);
    push_str(&mut v, "-");
    push_padded(&mut v, in_year / 30 + 1, 2);
    push_str(&mut v, "-");
    push_padded(&mut v, in_year % 30 + 1, 2);
    push_str(&mut v, " ");
    push_padded(&mut v, (secs / 3600) % 24, 2);
    push_str(&mut v, ":");
    push_padded(&mut v, (secs / 60) % 60, 2);
    let r = string_of(v.as_slice());
    assert(r@ =~= expiry_text(secs as nat));
    r
}

} // verus!

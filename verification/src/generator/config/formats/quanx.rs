//! The Quantumult X client format.
use super::loon::{join, push_number};
use super::surge::{defined, flag_field, push_flag, push_joined_by, push_text, text_field, tf, txt, txt_exec};
use crate::generator::config::group::{group_fits, group_rule_members, rule_members};
use crate::models::extra_settings::ExtraSettings;
use crate::models::proxy::{Proxy, ProxyType};
use crate::models::proxy_group_config::{ProxyGroupConfig, ProxyGroupType};
use crate::text::{
    chars_of, contains_seq, contains_str, eq_str, has_prefix, has_suffix, nat_decimal, ov, pair_views, push_all,
    push_str, replace_all, replace_all_exec, split, split_char, starts_with_str, string_of,
    string_views, trim, trim_chars, u64_decimal, views,
};
use crate::utils::url::{get_url_arg, url_arg};
use crate::utils::ini::{client_config, client_updates, ini_sections, ini_text_of, with_sections};
use crate::text::lemma_contains_middle;
use vstd::prelude::*;

verus! {

// ---------------------------------------------------------------------------
// Proxy lines
// ---------------------------------------------------------------------------
/// Server and port of a node, as `host:port`.
pub open spec fn hp(n: Proxy) -> Seq<char> {
    n.hostname@ + ":"@ + nat_decimal(n.port as nat)
}

/// The TLS part of an HTTP, Trojan or SOCKS5 line: `over-tls` and, with TLS
/// on, `extra` and the TLS 1.3 flag where set.
pub open spec fn over_tls(n: Proxy, extra: Seq<char>, tls13: Option<bool>) -> Seq<char> {
    if n.tls_secure {
        ", over-tls=true"@ + extra + flag_field(", tls13="@, tls13)
    } else {
        ", over-tls=false"@
    }
}

/// A user name or password, `none` where it is empty.
pub open spec fn or_none(s: Seq<char>) -> Seq<char> {
    if s.len() == 0 {
        "none"@
    } else {
        s
    }
}

/// The VMess line: `auto` encryption is written as
/// `chacha20-ietf-poly1305`, AEAD is turned off for a non-zero alter id, and
/// WebSocket or TLS transport become `obfs` settings.
pub open spec fn quanx_vmess(n: Proxy, tls13: Option<bool>) -> Seq<char> {
    let method = txt(n.encrypt_method);
    let host = txt(n.host);
    "vmess = "@ + hp(n) + ", method="@ + (if method == "auto"@ {
        "chacha20-ietf-poly1305"@
    } else {
        method
    }) + ", password="@ + txt(n.user_id) + (if n.alter_id == 0 {
        Seq::empty()
    } else {
        ", aead=false"@
    }) + (if n.tls_secure {
        flag_field(", tls13="@, tls13)
    } else {
        Seq::empty()
    }) + (if txt(n.transfer_protocol) == "ws"@ {
        (if n.tls_secure {
            ", obfs=wss"@
        } else {
            ", obfs=ws"@
        }) + ", obfs-host="@ + host + ", obfs-uri="@ + txt(n.path)
    } else if n.tls_secure {
        ", obfs=over-tls, obfs-host="@ + host
    } else {
        Seq::empty()
    })
}

/// The `obfs` settings of a Shadowsocks node with the `v2ray-plugin`, read
/// from its plugin options taken as a query string (`;` for `&`): WebSocket
/// mode gives `ws`, or `wss` with TLS.
pub open spec fn quanx_v2ray(opts: Seq<char>, tls13: Option<bool>) -> Seq<char> {
    let o = replace_all(opts, ";"@, "&"@);
    let ws = url_arg(o, "mode"@) == "websocket"@;
    let wss = ws && contains_seq(o, "tls"@);
    (if wss {
        flag_field(", tls13="@, tls13)
    } else {
        Seq::empty()
    }) + ", obfs="@ + (if wss {
        "wss"@
    } else if ws {
        "ws"@
    } else {
        Seq::empty()
    }) + text_field(", obfs-host="@, url_arg(o, "host"@)) + text_field(
        ", obfs-uri="@,
        url_arg(o, "path"@),
    )
}

/// The Shadowsocks line; `None` for a plugin other than `simple-obfs`,
/// `obfs-local` and `v2ray-plugin`.
pub open spec fn quanx_ss(n: Proxy, tls13: Option<bool>) -> Option<Seq<char>> {
    let head = "shadowsocks = "@ + hp(n) + ", method="@ + txt(n.encrypt_method) + ", password="@
        + txt(n.password);
    let plugin = txt(n.plugin);
    let opts = txt(n.plugin_option);
    if plugin.len() == 0 {
        Some(head)
    } else if plugin == "simple-obfs"@ || plugin == "obfs-local"@ {
        Some(
            head + if opts.len() > 0 {
                ", "@ + replace_all(opts, ";"@, ", "@)
            } else {
                Seq::empty()
            },
        )
    } else if plugin == "v2ray-plugin"@ {
        Some(head + quanx_v2ray(opts, tls13))
    } else {
        None
    }
}

/// The ShadowsocksR line.
pub open spec fn quanx_ssr(n: Proxy) -> Seq<char> {
    "shadowsocks = "@ + hp(n) + ", method="@ + txt(n.encrypt_method) + ", password="@ + txt(n.password)
        + ", ssr-protocol="@ + txt(n.protocol) + text_field(", ssr-protocol-param="@, txt(n.protocol_param))
        + ", obfs="@ + txt(n.obfs) + text_field(", obfs-host="@, txt(n.obfs_param))
}

/// The SOCKS5 line: credentials and TLS only where both user and password
/// are given.
pub open spec fn quanx_socks(n: Proxy, tls13: Option<bool>) -> Seq<char> {
    let user = txt(n.username);
    let password = txt(n.password);
    "socks5 = "@ + hp(n) + if user.len() > 0 && password.len() > 0 {
        ", username="@ + user + ", password="@ + password + over_tls(
            n,
            ", tls-host="@ + txt(n.host),
            tls13,
        )
    } else {
        Seq::empty()
    }
}

/// The line of a node without its general options; `None` for a protocol
/// that Quantumult X cannot use.
pub open spec fn quanx_body(n: Proxy, tls13: Option<bool>) -> Option<Seq<char>> {
    match n.proxy_type {
        ProxyType::VMess => Some(quanx_vmess(n, tls13)),
        ProxyType::Shadowsocks => quanx_ss(n, tls13),
        ProxyType::ShadowsocksR => Some(quanx_ssr(n)),
        ProxyType::HTTP | ProxyType::HTTPS => Some(
            "http = "@ + hp(n) + ", username="@ + or_none(txt(n.username)) + ", password="@ + or_none(
                txt(n.password),
            ) + over_tls(n, Seq::empty(), tls13),
        ),
        ProxyType::Trojan => Some(
            "trojan = "@ + hp(n) + ", password="@ + txt(n.password) + over_tls(
                n,
                ", tls-host="@ + txt(n.host),
                tls13,
            ),
        ),
        ProxyType::Socks5 => Some(quanx_socks(n, tls13)),
        _ => None,
    }
}

/// The certificate check of a TLS node other than Shadowsocks(R), where set;
/// Quantumult X names it the other way round from skipping.
pub open spec fn tls_verification(n: Proxy, scv: Option<bool>) -> Seq<char> {
    if n.tls_secure && scv is Some && n.proxy_type != ProxyType::Shadowsocks && n.proxy_type
        != ProxyType::ShadowsocksR {
        ", tls-verification="@ + tf(!scv.unwrap())
    } else {
        Seq::empty()
    }
}

/// The server line of a node in the `server_local` section of Quantumult X,
/// its settings taking the defaults `ext_*` where it has none: the line of
/// its protocol, then TCP Fast Open, UDP relay and certificate check where
/// set, and its remark as tag. `None` where the node cannot be used.
pub open spec fn quanx_line_of(
    n: Proxy,
    ext_udp: Option<bool>,
    ext_tfo: Option<bool>,
    ext_scv: Option<bool>,
    ext_tls13: Option<bool>,
) -> Option<Seq<char>> {
    match quanx_body(n, defined(n.tls13, ext_tls13)) {
        Some(b) => Some(
            b + flag_field(", fast-open="@, defined(n.tcp_fast_open, ext_tfo)) + flag_field(
                ", udp-relay="@,
                defined(n.udp, ext_udp),
            ) + tls_verification(n, defined(n.allow_insecure, ext_scv)) + ", tag="@ + n.remark@,
        ),
        None => None,
    }
}

/// Appends `host:port` of a node (see [`hp`]).
fn push_hp(v: &mut Vec<char>, n: &Proxy)
    ensures
        final(v)@ == old(v)@ + hp(*n),
{
    push_str(v, n.hostname.as_str());
    push_str(v, ":");
    let p = u64_decimal(n.port as u64);
    push_all(v, p.as_slice());
    assert(v@ =~= old(v)@ + hp(*n));
}

/// Appends the TLS part of a line (see [`over_tls`]).
fn push_over_tls(v: &mut Vec<char>, n: &Proxy, extra: &[char], tls13: Option<bool>)
    ensures
        final(v)@ == old(v)@ + over_tls(*n, extra@, tls13),
{
    if n.tls_secure {
        push_str(v, ", over-tls=true");
        push_all(v, extra);
        push_flag(v, ", tls13=", tls13);
    } else {
        push_str(v, ", over-tls=false");
    }
    assert(v@ =~= old(v)@ + over_tls(*n, extra@, tls13));
}

/// Appends `key` and a text, `none` where it is empty (see [`or_none`]).
fn push_or_none(v: &mut Vec<char>, key: &str, t: &[char])
    ensures
        final(v)@ == old(v)@ + key@ + or_none(t@),
{
    push_str(v, key);
    if t.len() == 0 {
        push_str(v, "none");
    } else {
        push_all(v, t);
    }
    assert(v@ =~= old(v)@ + key@ + or_none(t@));
}

/// The VMess line (see [`quanx_vmess`]).
fn vmess_line(n: &Proxy, tls13: Option<bool>) -> (r: Vec<char>)
    ensures
        r@ == quanx_vmess(*n, tls13),
{
    let mut v: Vec<char> = Vec::new();
    push_str(&mut v, "vmess = ");
    push_hp(&mut v, n);
    push_str(&mut v, ", method=");
    let method = txt_exec(&n.encrypt_method);
    if eq_str(method.as_slice(), "auto") {
        push_str(&mut v, "chacha20-ietf-poly1305");
    } else {
        push_all(&mut v, method.as_slice());
    }
    push_str(&mut v, ", password=");
    let id = txt_exec(&n.user_id);
    push_all(&mut v, id.as_slice());
    let ghost a0 = v@;
    if n.alter_id != 0 {
        push_str(&mut v, ", aead=false");
    }
    assert(v@ =~= a0 + (if n.alter_id == 0 {
        Seq::empty()
    } else {
        ", aead=false"@
    }));
    let ghost t0 = v@;
    if n.tls_secure {
        push_flag(&mut v, ", tls13=", tls13);
    }
    assert(v@ =~= t0 + (if n.tls_secure {
        flag_field(", tls13="@, tls13)
    } else {
        Seq::empty()
    }));
    let host = txt_exec(&n.host);
    let proto = txt_exec(&n.transfer_protocol);
    if eq_str(proto.as_slice(), "ws") {
        push_str(&mut v, if n.tls_secure { ", obfs=wss" } else { ", obfs=ws" });
        push_str(&mut v, ", obfs-host=");
        push_all(&mut v, host.as_slice());
        push_str(&mut v, ", obfs-uri=");
        let path = txt_exec(&n.path);
        push_all(&mut v, path.as_slice());
    } else if n.tls_secure {
        push_str(&mut v, ", obfs=over-tls, obfs-host=");
        push_all(&mut v, host.as_slice());
    }
    assert(v@ =~= quanx_vmess(*n, tls13));
    v
}

/// The `obfs` settings of the `v2ray-plugin` (see [`quanx_v2ray`]).
fn v2ray_fields(opts: &[char], tls13: Option<bool>) -> (r: Vec<char>)
    ensures
        r@ == quanx_v2ray(opts@, tls13),
{
    let semi = chars_of(";");
    let amp = chars_of("&");
    proof {
        reveal_strlit(";");
    }
    let o = replace_all_exec(opts, semi.as_slice(), amp.as_slice());
    let os = string_of(o.as_slice());
    let mode = get_url_arg(os.as_str(), "mode");
    let mc = chars_of(mode.as_str());
    let ws = eq_str(mc.as_slice(), "websocket");
    let wss = ws && contains_str(o.as_slice(), "tls");
    let mut v: Vec<char> = Vec::new();
    if wss {
        push_flag(&mut v, ", tls13=", tls13);
    }
    push_str(&mut v, ", obfs=");
    if wss {
        push_str(&mut v, "wss");
    } else if ws {
        push_str(&mut v, "ws");
    }
    let host = get_url_arg(os.as_str(), "host");
    let hc = chars_of(host.as_str());
    push_text(&mut v, ", obfs-host=", hc.as_slice());
    let path = get_url_arg(os.as_str(), "path");
    let pc = chars_of(path.as_str());
    push_text(&mut v, ", obfs-uri=", pc.as_slice());
    assert(v@ =~= quanx_v2ray(opts@, tls13));
    v
}

/// The Shadowsocks line (see [`quanx_ss`]).
fn ss_line(n: &Proxy, tls13: Option<bool>) -> (r: Option<Vec<char>>)
    ensures
        match r {
            Some(v) => quanx_ss(*n, tls13) == Some(v@),
            None => quanx_ss(*n, tls13) is None,
        },
{
    let mut v: Vec<char> = Vec::new();
    push_str(&mut v, "shadowsocks = ");
    push_hp(&mut v, n);
    push_str(&mut v, ", method=");
    let method = txt_exec(&n.encrypt_method);
    push_all(&mut v, method.as_slice());
    push_str(&mut v, ", password=");
    let password = txt_exec(&n.password);
    push_all(&mut v, password.as_slice());
    let ghost head = v@;
    let plugin = txt_exec(&n.plugin);
    let opts = txt_exec(&n.plugin_option);
    if plugin.len() == 0 {
        return Some(v);
    }
    if eq_str(plugin.as_slice(), "simple-obfs") || eq_str(plugin.as_slice(), "obfs-local") {
        if opts.len() > 0 {
            push_str(&mut v, ", ");
            let semi = chars_of(";");
            let sep = chars_of(", ");
            proof {
                reveal_strlit(";");
            }
            let replaced = replace_all_exec(opts.as_slice(), semi.as_slice(), sep.as_slice());
            push_all(&mut v, replaced.as_slice());
            assert(v@ =~= head + (", "@ + replace_all(txt(n.plugin_option), ";"@, ", "@)));
        } else {
            assert(v@ =~= head + Seq::<char>::empty());
        }
        Some(v)
    } else if eq_str(plugin.as_slice(), "v2ray-plugin") {
        let f = v2ray_fields(opts.as_slice(), tls13);
        push_all(&mut v, f.as_slice());
        Some(v)
    } else {
        None
    }
}

/// The ShadowsocksR line (see [`quanx_ssr`]).
fn ssr_line(n: &Proxy) -> (r: Vec<char>)
    ensures
        r@ == quanx_ssr(*n),
{
    let mut v: Vec<char> = Vec::new();
    push_str(&mut v, "shadowsocks = ");
    push_hp(&mut v, n);
    push_str(&mut v, ", method=");
    let method = txt_exec(&n.encrypt_method);
    push_all(&mut v, method.as_slice());
    push_str(&mut v, ", password=");
    let password = txt_exec(&n.password);
    push_all(&mut v, password.as_slice());
    push_str(&mut v, ", ssr-protocol=");
    let protocol = txt_exec(&n.protocol);
    push_all(&mut v, protocol.as_slice());
    let param = txt_exec(&n.protocol_param);
    push_text(&mut v, ", ssr-protocol-param=", param.as_slice());
    push_str(&mut v, ", obfs=");
    let obfs = txt_exec(&n.obfs);
    push_all(&mut v, obfs.as_slice());
    let obfs_param = txt_exec(&n.obfs_param);
    push_text(&mut v, ", obfs-host=", obfs_param.as_slice());
    v
}

/// The SOCKS5 line (see [`quanx_socks`]).
fn socks_line(n: &Proxy, tls13: Option<bool>) -> (r: Vec<char>)
    ensures
        r@ == quanx_socks(*n, tls13),
{
    let mut v: Vec<char> = Vec::new();
    push_str(&mut v, "socks5 = ");
    push_hp(&mut v, n);
    let user = txt_exec(&n.username);
    let password = txt_exec(&n.password);
    if user.len() > 0 && password.len() > 0 {
        push_str(&mut v, ", username=");
        push_all(&mut v, user.as_slice());
        push_str(&mut v, ", password=");
        push_all(&mut v, password.as_slice());
        let mut extra = chars_of(", tls-host=");
        let host = txt_exec(&n.host);
        push_all(&mut extra, host.as_slice());
        push_over_tls(&mut v, n, extra.as_slice(), tls13);
    }
    assert(v@ =~= quanx_socks(*n, tls13));
    v
}

/// The line of a node without its general options (see [`quanx_body`]).
fn body_line(n: &Proxy, tls13: Option<bool>) -> (r: Option<Vec<char>>)
    ensures
        match r {
            Some(v) => quanx_body(*n, tls13) == Some(v@),
            None => quanx_body(*n, tls13) is None,
        },
{
    match n.proxy_type {
        ProxyType::VMess => Some(vmess_line(n, tls13)),
        ProxyType::Shadowsocks => ss_line(n, tls13),
        ProxyType::ShadowsocksR => Some(ssr_line(n)),
        ProxyType::HTTP | ProxyType::HTTPS => {
            let mut v: Vec<char> = Vec::new();
            push_str(&mut v, "http = ");
            push_hp(&mut v, n);
            let user = txt_exec(&n.username);
            push_or_none(&mut v, ", username=", user.as_slice());
            let password = txt_exec(&n.password);
            push_or_none(&mut v, ", password=", password.as_slice());
            let empty: Vec<char> = Vec::new();
            push_over_tls(&mut v, n, empty.as_slice(), tls13);
            Some(v)
        },
        ProxyType::Trojan => {
            let mut v: Vec<char> = Vec::new();
            push_str(&mut v, "trojan = ");
            push_hp(&mut v, n);
            push_str(&mut v, ", password=");
            let password = txt_exec(&n.password);
            push_all(&mut v, password.as_slice());
            let mut extra = chars_of(", tls-host=");
            let host = txt_exec(&n.host);
            push_all(&mut extra, host.as_slice());
            push_over_tls(&mut v, n, extra.as_slice(), tls13);
            Some(v)
        },
        ProxyType::Socks5 => Some(socks_line(n, tls13)),
        _ => None,
    }
}

/// The server line of a node for Quantumult X (see [`quanx_line_of`]);
/// `ext_*` are the defaults of the conversion.
pub fn quanx_proxy_line(
    node: &Proxy,
    ext_udp: Option<bool>,
    ext_tfo: Option<bool>,
    ext_scv: Option<bool>,
    ext_tls13: Option<bool>,
) -> (r: Option<String>)
    ensures
        ov(r) == quanx_line_of(*node, ext_udp, ext_tfo, ext_scv, ext_tls13),
{
    let udp = match node.udp {
        Some(b) => Some(b),
        None => ext_udp,
    };
    let tfo = match node.tcp_fast_open {
        Some(b) => Some(b),
        None => ext_tfo,
    };
    let scv = match node.allow_insecure {
        Some(b) => Some(b),
        None => ext_scv,
    };
    let tls13 = match node.tls13 {
        Some(b) => Some(b),
        None => ext_tls13,
    };
    match body_line(node, tls13) {
        None => None,
        Some(mut v) => {
            push_flag(&mut v, ", fast-open=", tfo);
            push_flag(&mut v, ", udp-relay=", udp);
            let ghost t0 = v@;
            match scv {
                Some(s) => {
                    if node.tls_secure && node.proxy_type != ProxyType::Shadowsocks
                        && node.proxy_type != ProxyType::ShadowsocksR {
                        push_str(&mut v, ", tls-verification=");
                        push_str(&mut v, if s { "false" } else { "true" });
                    }
                },
                None => {},
            }
            assert(v@ =~= t0 + tls_verification(*node, scv));
            push_str(&mut v, ", tag=");
            push_str(&mut v, node.remark.as_str());
            Some(string_of(v.as_slice()))
        },
    }
}

/// Every server line of Quantumult X ends with the node's remark as its
/// tag, so that policies can name the node.
pub proof fn law_quanx_line_tagged(
    n: Proxy,
    ext_udp: Option<bool>,
    ext_tfo: Option<bool>,
    ext_scv: Option<bool>,
    ext_tls13: Option<bool>,
)
    ensures
        quanx_line_of(n, ext_udp, ext_tfo, ext_scv, ext_tls13) matches Some(l) ==> has_suffix(
            l,
            ", tag="@ + n.remark@,
        ),
{
    if let Some(l) = quanx_line_of(n, ext_udp, ext_tfo, ext_scv, ext_tls13) {
        let t = ", tag="@ + n.remark@;
        let b = quanx_body(n, defined(n.tls13, ext_tls13))->0;
        let front = b + flag_field(", fast-open="@, defined(n.tcp_fast_open, ext_tfo)) + flag_field(
            ", udp-relay="@,
            defined(n.udp, ext_udp),
        ) + tls_verification(n, defined(n.allow_insecure, ext_scv));
        assert(l == front + t);
        assert(l.skip(l.len() - t.len()) =~= t);
    }
}

// ---------------------------------------------------------------------------
// Policy lines
// ---------------------------------------------------------------------------
/// The policy kind of a group kind in Quantumult X; `None` for kinds it
/// does not have.
pub open spec fn quanx_kind(t: ProxyGroupType) -> Option<Seq<char>> {
    match t {
        ProxyGroupType::Select => Some("static"@),
        ProxyGroupType::URLTest => Some("url-latency-benchmark"@),
        ProxyGroupType::Fallback => Some("available"@),
        ProxyGroupType::LoadBalance => Some("round-robin"@),
        ProxyGroupType::SSID => Some("ssid"@),
        _ => None,
    }
}

/// The `img-url` parts that the policy lines of the base configuration
/// (`base_policies`, as key and line) give the group `name`: the last
/// comma-separated part, trimmed, of each line whose first part, trimmed,
/// is the name, where that part starts with `img-url`.
pub open spec fn img_parts(base_policies: Seq<(Seq<char>, Seq<char>)>, name: Seq<char>) -> Seq<Seq<char>>
    decreases base_policies.len(),
{
    if base_policies.len() == 0 {
        Seq::empty()
    } else {
        let prev = img_parts(base_policies.drop_last(), name);
        let parts = split_char(base_policies.last().1, ',');
        let last = trim(parts.last());
        if parts.len() > 1 && trim(parts[0]) == name && has_prefix(last, "img-url"@) {
            prev.push(last)
        } else {
            prev
        }
    }
}

/// The members of a policy: for an SSID policy its entries with `=`
/// written as `:`; else the nodes chosen for it (`generated`), or `direct`
/// where none was.
pub open spec fn quanx_members(g: ProxyGroupConfig, generated: Seq<Seq<char>>) -> Seq<Seq<char>> {
    if g.group_type == ProxyGroupType::SSID {
        string_views(g.proxies@).map_values(|p: Seq<char>| replace_all(p, "="@, ":"@))
    } else if generated.len() == 0 {
        seq!["direct"@]
    } else {
        generated
    }
}

/// The policy line of a group in Quantumult X: its kind (`static` for a
/// group of fewer than two members other than SSID), name, members and
/// `img-url` parts, then the check interval and tolerance for a testing
/// kind. `None` for a kind that Quantumult X does not have.
pub open spec fn quanx_group_line_of(
    g: ProxyGroupConfig,
    generated: Seq<Seq<char>>,
    base_policies: Seq<(Seq<char>, Seq<char>)>,
) -> Option<Seq<char>> {
    match quanx_kind(g.group_type) {
        None => None,
        Some(kind) => {
            let members = quanx_members(g, generated);
            let shown = if g.group_type != ProxyGroupType::SSID && members.len() < 2 {
                "static"@
            } else {
                kind
            };
            Some(
                shown + "="@ + g.name@ + ", "@ + join(members + img_parts(base_policies, g.name@), ", "@)
                    + if g.group_type != ProxyGroupType::Select && g.group_type
                    != ProxyGroupType::SSID {
                    ", check-interval="@ + nat_decimal(g.interval as nat) + if g.tolerance > 0 {
                        ", tolerance="@ + nat_decimal(g.tolerance as nat)
                    } else {
                        Seq::empty()
                    }
                } else {
                    Seq::empty()
                },
            )
        },
    }
}

/// The `img-url` parts of the base policy lines for a group (see
/// [`img_parts`]).
fn img_parts_exec(base_policies: &[(String, String)], name: &str) -> (r: Vec<String>)
    ensures
        string_views(r@) == img_parts(pair_views(base_policies@), name@),
{
    let ghost ov = pair_views(base_policies@);
    let mut r: Vec<String> = Vec::new();
    let mut i: usize = 0;
    while i < base_policies.len()
        invariant
            i <= base_policies@.len(),
            ov == pair_views(base_policies@),
            string_views(r@) == img_parts(ov.take(i as int), name@),
        decreases base_policies@.len() - i,
    {
        assert(ov.take(i + 1).drop_last() =~= ov.take(i as int));
        assert(ov.take(i + 1).last() == ov[i as int]);
        let data = chars_of(base_policies[i].1.as_str());
        let parts = split(data.as_slice(), ',');
        let ghost pv = views(parts@);
        let ghost before = string_views(r@);
        if parts.len() > 1 {
            let first = trim_chars(parts[0].as_slice());
            assert(pv[0] == parts@[0]@);
            if eq_str(first.as_slice(), name) {
                let last = trim_chars(parts[parts.len() - 1].as_slice());
                assert(pv.last() == parts@[parts@.len() - 1]@);
                if starts_with_str(last.as_slice(), "img-url") {
                    r.push(string_of(last.as_slice()));
                    assert(string_views(r@) =~= before.push(last@));
                }
            }
        }
        i = i + 1;
    }
    assert(ov.take(i as int) =~= ov);
    r
}

/// The policy line of a group for Quantumult X (see
/// [`quanx_group_line_of`]); `generated` holds the nodes chosen for the
/// group, `base_policies` the policy lines of the base configuration.
pub fn quanx_group_line(
    group: &ProxyGroupConfig,
    generated: &Vec<String>,
    base_policies: &[(String, String)],
) -> (r: Option<String>)
    ensures
        ov(r) == quanx_group_line_of(*group, string_views(generated@), pair_views(base_policies@)),
{
    let t = group.group_type;
    let kind = match t {
        ProxyGroupType::Select => "static",
        ProxyGroupType::URLTest => "url-latency-benchmark",
        ProxyGroupType::Fallback => "available",
        ProxyGroupType::LoadBalance => "round-robin",
        ProxyGroupType::SSID => "ssid",
        _ => {
            return None;
        },
    };
    let mut members: Vec<String> = Vec::new();
    if t == ProxyGroupType::SSID {
        let ghost pv = string_views(group.proxies@);
        let eq = chars_of("=");
        let colon = chars_of(":");
        proof {
            reveal_strlit("=");
        }
        let mut i: usize = 0;
        while i < group.proxies.len()
            invariant
                i <= group.proxies@.len(),
                pv == string_views(group.proxies@),
                eq@ == "="@,
                colon@ == ":"@,
                string_views(members@) == pv.take(i as int).map_values(
                    |p: Seq<char>| replace_all(p, "="@, ":"@),
                ),
            decreases group.proxies@.len() - i,
        {
            let pc = chars_of(group.proxies[i].as_str());
            proof {
                reveal_strlit("=");
            }
            let rc = replace_all_exec(pc.as_slice(), eq.as_slice(), colon.as_slice());
            let ghost before = string_views(members@);
            members.push(string_of(rc.as_slice()));
            assert(string_views(members@) =~= before.push(replace_all(pv[i as int], "="@, ":"@)));
            assert(pv.take(i + 1).map_values(|p: Seq<char>| replace_all(p, "="@, ":"@))
                =~= pv.take(i as int).map_values(|p: Seq<char>| replace_all(p, "="@, ":"@)).push(
                replace_all(pv[i as int], "="@, ":"@),
            ));
            i = i + 1;
        }
        assert(pv.take(i as int) =~= pv);
    } else if generated.len() == 0 {
        members.push("direct".to_owned());
        assert(string_views(members@) =~= seq!["direct"@]);
    } else {
        let mut i: usize = 0;
        while i < generated.len()
            invariant
                i <= generated@.len(),
                string_views(members@) == string_views(generated@).take(i as int),
            decreases generated@.len() - i,
        {
            let ghost before = string_views(members@);
            members.push(generated[i].clone());
            assert(string_views(members@) =~= before.push(generated@[i as int]@));
            assert(string_views(generated@).take(i + 1) =~= string_views(generated@).take(i as int).push(
                generated@[i as int]@,
            ));
            i = i + 1;
        }
        assert(string_views(generated@).take(i as int) =~= string_views(generated@));
    }
    assert(string_views(members@) == quanx_members(*group, string_views(generated@)));
    let shown = if t != ProxyGroupType::SSID && members.len() < 2 {
        "static"
    } else {
        kind
    };
    let ghost mv = string_views(members@);
    let imgs = img_parts_exec(base_policies, group.name.as_str());
    let ghost iv = string_views(imgs@);
    let mut all = members;
    let mut j: usize = 0;
    while j < imgs.len()
        invariant
            j <= imgs@.len(),
            iv == string_views(imgs@),
            string_views(all@) == mv + iv.take(j as int),
        decreases imgs@.len() - j,
    {
        let ghost before = string_views(all@);
        all.push(imgs[j].clone());
        assert(string_views(all@) =~= before.push(imgs@[j as int]@));
        assert(iv.take(j + 1) =~= iv.take(j as int).push(iv[j as int]));
        j = j + 1;
    }
    assert(iv.take(j as int) =~= iv);
    let mut v = chars_of(shown);
    push_str(&mut v, "=");
    push_str(&mut v, group.name.as_str());
    push_str(&mut v, ", ");
    push_joined_by(&mut v, &all, ", ");
    if t != ProxyGroupType::Select && t != ProxyGroupType::SSID {
        push_str(&mut v, ", check-interval=");
        push_number(&mut v, group.interval);
        if group.tolerance > 0 {
            push_str(&mut v, ", tolerance=");
            push_number(&mut v, group.tolerance);
        }
    }
    let r = string_of(v.as_slice());
    assert(r@ =~= quanx_group_line_of(*group, string_views(generated@), pair_views(base_policies@))->0);
    Some(r)
}


/// Whether a group of kind `t` lists the nodes its rules choose in a
/// Quantumult X configuration.
pub open spec fn quanx_lists(t: ProxyGroupType) -> bool {
    t == ProxyGroupType::Select || t == ProxyGroupType::URLTest || t == ProxyGroupType::Fallback || t
        == ProxyGroupType::LoadBalance
}

/// The group lines of a Quantumult X configuration, one per group (see
/// [`quanx_group_line_of`]): a group that lists nodes has the members its rules
/// give it among `nodes`, direct entries included.
pub open spec fn quanx_group_lines_of(groups: Seq<ProxyGroupConfig>, nodes: Seq<Proxy>, base_policies: Seq<(Seq<char>, Seq<char>)>, authorized: bool) -> Seq<
    Option<Seq<char>>,
> {
    Seq::new(groups.len(), |i: int| quanx_group_line_of(groups[i], rule_members(groups[i], nodes, true, authorized), base_policies))
}

/// The group lines of a Quantumult X configuration (see
/// [`quanx_group_lines_of`]). The rules of each group that lists nodes must
/// fit the nodes.
pub fn quanx_group_lines(groups: &Vec<ProxyGroupConfig>, nodes: &[Proxy], base_policies: &[(String, String)], ext: &ExtraSettings) -> (r: Vec<
    Option<String>,
>)
    requires
        forall|i: int|
            0 <= i < groups@.len() && quanx_lists((#[trigger] groups@[i]).group_type) ==> group_fits(
                groups@[i],
                nodes@,
            ),
    ensures
        r@.len() == groups@.len(),
        forall|i: int|
            0 <= i < groups@.len() ==> ov(#[trigger] r@[i]) == quanx_group_lines_of(groups@, nodes@, pair_views(base_policies@), ext.authorized)[i],
{
    let mut r: Vec<Option<String>> = Vec::new();
    let mut i: usize = 0;
    while i < groups.len()
        invariant
            i <= groups@.len(),
            r@.len() == i,
            forall|k: int|
                0 <= k < groups@.len() && quanx_lists((#[trigger] groups@[k]).group_type) ==> group_fits(
                    groups@[k],
                    nodes@,
                ),
            forall|k: int|
                0 <= k < i ==> ov(#[trigger] r@[k]) == quanx_group_lines_of(groups@, nodes@, pair_views(base_policies@), ext.authorized)[k],
        decreases groups@.len() - i,
    {
        let g = &groups[i];
        let t = g.group_type;
        let members = if t == ProxyGroupType::Select || t == ProxyGroupType::URLTest || t == ProxyGroupType::Fallback
            || t == ProxyGroupType::LoadBalance {
            group_rule_members(g, nodes, true, ext)
        } else {
            Vec::new()
        };
        let line = quanx_group_line(g, &members, base_policies);
        assert(ov(line) == quanx_group_lines_of(groups@, nodes@, pair_views(base_policies@), ext.authorized)[i as int]);
        r.push(line);
        i = i + 1;
    }
    r
}


/// A Quantumult X configuration: the base configuration `base` with the node
/// lines in `server_local`, the group lines in `policy` and the rules in
/// `filter_local`, the remote rules into `filter_remote` (see [`client_updates`]); the base's own nodes and groups are replaced, and the
/// base's rules are kept before the new ones unless
/// `overwrite_original_rules`.
pub fn quanx_config(
    base: &str,
    node_lines: &Vec<String>,
    group_lines: &Vec<String>,
    rules: &Vec<String>,
    remote_rules: &Vec<String>,
    overwrite_original_rules: bool,
) -> (r: String)
    ensures
        r@ == ini_text_of(
            with_sections(
                ini_sections(base@),
                client_updates(
                    ini_sections(base@),
                    "server_local"@,
                    false,
                    string_views(node_lines@),
                    "policy"@,
                    false,
                    string_views(group_lines@),
                    "filter_local"@,
                    string_views(rules@),
                    Some("filter_remote"@),
                    string_views(remote_rules@),
                    overwrite_original_rules,
                ),
            ),
        ),
{
    client_config(
        base,
        "server_local",
        false,
        node_lines,
        "policy",
        false,
        group_lines,
        "filter_local",
        rules,
        Some("filter_remote"),
        remote_rules,
        overwrite_original_rules,
    )
}


/// A VMess node over WebSocket always gets a Quantumult X line, whose
/// `obfs` is `wss` exactly where the node has TLS on and `ws` where it has
/// it off, followed by the node's host as `obfs-host`.
pub proof fn law_quanx_vmess_ws_obfs(
    n: Proxy,
    ext_udp: Option<bool>,
    ext_tfo: Option<bool>,
    ext_scv: Option<bool>,
    ext_tls13: Option<bool>,
)
    requires
        n.proxy_type == ProxyType::VMess,
        n.transfer_protocol matches Some(t) && t@ == "ws"@,
    ensures
        quanx_line_of(n, ext_udp, ext_tfo, ext_scv, ext_tls13) matches Some(l) && contains_seq(
            l,
            ", obfs="@ + (if n.tls_secure {
                "wss"@
            } else {
                "ws"@
            }) + ", obfs-host="@ + txt(n.host) + ", obfs-uri="@,
        ),
{
    let tls13 = defined(n.tls13, ext_tls13);
    let method = txt(n.encrypt_method);
    let head = "vmess = "@ + hp(n) + ", method="@ + (if method == "auto"@ {
        "chacha20-ietf-poly1305"@
    } else {
        method
    }) + ", password="@ + txt(n.user_id) + (if n.alter_id == 0 {
        Seq::empty()
    } else {
        ", aead=false"@
    }) + (if n.tls_secure {
        flag_field(", tls13="@, tls13)
    } else {
        Seq::empty()
    });
    let mid = ", obfs="@ + (if n.tls_secure {
        "wss"@
    } else {
        "ws"@
    }) + ", obfs-host="@ + txt(n.host) + ", obfs-uri="@;
    let body = head + mid + txt(n.path);
    assert(txt(n.transfer_protocol) == "ws"@);
    reveal_strlit(", obfs=wss");
    reveal_strlit(", obfs=ws");
    reveal_strlit(", obfs=");
    reveal_strlit("wss");
    reveal_strlit("ws");
    assert((if n.tls_secure {
        ", obfs=wss"@
    } else {
        ", obfs=ws"@
    }) =~= ", obfs="@ + (if n.tls_secure {
        "wss"@
    } else {
        "ws"@
    }));
    assert(quanx_vmess(n, tls13) =~= body);
    let rest = flag_field(", fast-open="@, defined(n.tcp_fast_open, ext_tfo)) + flag_field(
        ", udp-relay="@,
        defined(n.udp, ext_udp),
    ) + tls_verification(n, defined(n.allow_insecure, ext_scv)) + ", tag="@ + n.remark@;
    let l = body + rest;
    assert(quanx_line_of(n, ext_udp, ext_tfo, ext_scv, ext_tls13) == Some(l));
    assert(l =~= head + mid + (txt(n.path) + rest));
    lemma_contains_middle(head, mid, txt(n.path) + rest);
}


/// Every VMess node gets a Quantumult X line that starts with its server
/// and port and names its user id as password.
pub proof fn law_quanx_vmess_server(
    n: Proxy,
    ext_udp: Option<bool>,
    ext_tfo: Option<bool>,
    ext_scv: Option<bool>,
    ext_tls13: Option<bool>,
)
    requires
        n.proxy_type == ProxyType::VMess,
    ensures
        quanx_line_of(n, ext_udp, ext_tfo, ext_scv, ext_tls13) matches Some(l) && has_prefix(
            l,
            "vmess = "@ + n.hostname@ + ":"@ + nat_decimal(n.port as nat) + ", method="@,
        ) && contains_seq(l, ", password="@ + txt(n.user_id)),
{
    let tls13 = defined(n.tls13, ext_tls13);
    let method = txt(n.encrypt_method);
    let lead = "vmess = "@ + n.hostname@ + ":"@ + nat_decimal(n.port as nat) + ", method="@;
    let m = if method == "auto"@ {
        "chacha20-ietf-poly1305"@
    } else {
        method
    };
    let mid = ", password="@ + txt(n.user_id);
    let body = quanx_vmess(n, tls13);
    let tail = body.skip((lead + m + mid).len() as int);
    assert(body =~= lead + m + mid + tail);
    let rest = flag_field(", fast-open="@, defined(n.tcp_fast_open, ext_tfo)) + flag_field(
        ", udp-relay="@,
        defined(n.udp, ext_udp),
    ) + tls_verification(n, defined(n.allow_insecure, ext_scv)) + ", tag="@ + n.remark@;
    let l = body + rest;
    assert(quanx_line_of(n, ext_udp, ext_tfo, ext_scv, ext_tls13) == Some(l));
    assert(l.take(lead.len() as int) =~= lead);
    assert(l =~= (lead + m) + mid + (tail + rest));
    lemma_contains_middle(lead + m, mid, tail + rest);
}

} // verus!

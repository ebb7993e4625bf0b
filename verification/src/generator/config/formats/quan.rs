//! The Quantumult client format.
use super::loon::join;
use super::mellow::{b64_text, url_text};
use super::single::{ss_link, ssr_link};
use super::surge::{push_joined_by, push_text, text_field, txt, txt_exec};
use crate::generator::config::group::{group_fits, group_rule_members, rule_members};
use crate::models::extra_settings::ExtraSettings;
use crate::models::proxy::{Proxy, ProxyType};
use crate::models::proxy_group_config::{ProxyGroupConfig, ProxyGroupType};
use crate::text::{
    chars_of, eq_str, nat_decimal, ov, push_all, push_str, replace_all, replace_all_exec, string_of,
    string_views, u64_decimal,
};
use crate::utils::base64::{base64, base64_encode, url_safe_base64_encode};
use crate::utils::matcher::{reg_get_match, regex_captures};
use crate::utils::url::url_encode;
use crate::utils::ini::{client_config, client_updates, ini_sections, ini_text_of, with_sections};
use vstd::prelude::*;
use vstd::utf8::encode_utf8;

verus! {

// ---------------------------------------------------------------------------
// Server lines
// ---------------------------------------------------------------------------
/// The certificate check of a TLS line where set: `0` to skip it, `1` to
/// check.
pub open spec fn certificate(scv: Option<bool>) -> Seq<char> {
    match scv {
        Some(b) => ", certificate="@ + if b {
            "0"@
        } else {
            "1"@
        },
        None => Seq::empty(),
    }
}

/// The VMess server line.
pub open spec fn quan_vmess(n: Proxy, scv: Option<bool>) -> Seq<char> {
    let method = txt(n.encrypt_method);
    let host = txt(n.host);
    n.remark@ + " = vmess, "@ + n.hostname@ + ", "@ + nat_decimal(n.port as nat) + ", "@ + (if method
        == "auto"@ {
        "chacha20-ietf-poly1305"@
    } else {
        method
    }) + ", \""@ + txt(n.user_id) + "\", group="@ + n.group@ + (if n.tls_secure {
        ", over-tls=true, tls-host="@ + host + certificate(scv)
    } else {
        Seq::empty()
    }) + (if txt(n.transfer_protocol) == "ws"@ {
        ", obfs=ws, obfs-path=\""@ + txt(n.path) + "\", obfs-header=\"Host: "@ + host + (if txt(
            n.edge,
        ).len() > 0 {
            "[Rr][Nn]Edge: "@ + txt(n.edge)
        } else {
            Seq::empty()
        }) + "\""@
    } else {
        Seq::empty()
    })
}

/// The HTTP or SOCKS server line (`kind` is `http` or `socks`).
pub open spec fn quan_upstream(n: Proxy, kind: Seq<char>, scv: Option<bool>) -> Seq<char> {
    let user = txt(n.username);
    let password = txt(n.password);
    n.remark@ + " = "@ + kind + ", upstream-proxy-address="@ + n.hostname@ + ", upstream-proxy-port="@
        + nat_decimal(n.port as nat) + ", group="@ + n.group@ + (if user.len() > 0 && password.len()
        > 0 {
        ", upstream-proxy-auth=true, upstream-proxy-username="@ + user + ", upstream-proxy-password="@
            + password
    } else {
        ", upstream-proxy-auth=false"@
    }) + (if n.tls_secure {
        ", over-tls=true"@ + text_field(", tls-host="@, txt(n.host)) + certificate(scv)
    } else {
        Seq::empty()
    })
}

/// The Shadowsocks server line.
pub open spec fn quan_ss(n: Proxy) -> Seq<char> {
    let opts = txt(n.plugin_option);
    n.remark@ + " = shadowsocks, "@ + n.hostname@ + ", "@ + nat_decimal(n.port as nat) + ", "@ + txt(
        n.encrypt_method,
    ) + ", \""@ + txt(n.password) + "\", group="@ + n.group@ + if txt(n.plugin) == "obfs-local"@
        && opts.len() > 0 {
        ", "@ + replace_all(opts, ";"@, ", "@)
    } else {
        Seq::empty()
    }
}

/// The ShadowsocksR server line.
pub open spec fn quan_ssr(n: Proxy) -> Seq<char> {
    n.remark@ + " = shadowsocksr, "@ + n.hostname@ + ", "@ + nat_decimal(n.port as nat) + ", "@ + txt(
        n.encrypt_method,
    ) + ", \""@ + txt(n.password) + "\", group="@ + n.group@ + ", protocol="@ + txt(n.protocol)
        + ", obfs="@ + txt(n.obfs) + text_field(", protocol_param="@, txt(n.protocol_param))
        + text_field(", obfs_param="@, txt(n.obfs_param))
}

/// What the `SERVER` section of Quantumult gets for a node, its certificate
/// check taking the default `ext_scv` where it has none: its server line,
/// or, where only a node list is wanted, its share link (the line in
/// URL-safe base64 behind the protocol's scheme for VMess, HTTP and SOCKS).
/// `None` for protocols that Quantumult cannot use.
pub open spec fn quan_line_of(n: Proxy, ext_scv: Option<bool>, nodelist: bool) -> Option<Seq<char>> {
    let scv = match n.allow_insecure {
        Some(b) => Some(b),
        None => ext_scv,
    };
    let plugin = txt(n.plugin);
    let opts = txt(n.plugin_option);
    match n.proxy_type {
        ProxyType::VMess => Some(
            if nodelist {
                "vmess://"@ + b64_text(quan_vmess(n, scv))
            } else {
                quan_vmess(n, scv)
            },
        ),
        ProxyType::ShadowsocksR => Some(
            if nodelist {
                ssr_link(
                    n,
                    txt(n.protocol),
                    txt(n.obfs),
                    "&obfsparam="@ + b64_text(txt(n.obfs_param)) + "&protoparam="@ + b64_text(
                        txt(n.protocol_param),
                    ),
                )
            } else {
                quan_ssr(n)
            },
        ),
        ProxyType::Shadowsocks => Some(
            if nodelist {
                ss_link(n) + (if plugin.len() > 0 && opts.len() > 0 {
                    "/?plugin="@ + url_text(plugin + ";"@ + opts)
                } else {
                    Seq::empty()
                }) + "&group="@ + b64_text(n.group@) + "#"@ + url_text(n.remark@)
            } else {
                quan_ss(n)
            },
        ),
        ProxyType::HTTP | ProxyType::HTTPS => Some(
            if nodelist {
                "http://"@ + b64_text(quan_upstream(n, "http"@, scv))
            } else {
                quan_upstream(n, "http"@, scv)
            },
        ),
        ProxyType::Socks5 => Some(
            if nodelist {
                "socks://"@ + b64_text(quan_upstream(n, "socks"@, scv))
            } else {
                quan_upstream(n, "socks"@, scv)
            },
        ),
        _ => None,
    }
}

/// Appends the certificate check where set (see [`certificate`]).
fn push_certificate(v: &mut Vec<char>, scv: Option<bool>)
    ensures
        final(v)@ == old(v)@ + certificate(scv),
{
    match scv {
        Some(b) => {
            push_str(v, ", certificate=");
            push_str(v, if b { "0" } else { "1" });
        },
        None => {},
    }
    assert(v@ =~= old(v)@ + certificate(scv));
}

/// Appends `name = kind, host, port` style head: remark, `sep`, host, `, `
/// and port.
fn push_head(v: &mut Vec<char>, n: &Proxy, sep: &str)
    ensures
        final(v)@ == old(v)@ + n.remark@ + sep@ + n.hostname@ + ", "@ + nat_decimal(n.port as nat),
{
    push_str(v, n.remark.as_str());
    push_str(v, sep);
    push_str(v, n.hostname.as_str());
    push_str(v, ", ");
    let p = u64_decimal(n.port as u64);
    push_all(v, p.as_slice());
    assert(v@ =~= old(v)@ + n.remark@ + sep@ + n.hostname@ + ", "@ + nat_decimal(n.port as nat));
}

/// The VMess server line (see [`quan_vmess`]).
fn vmess_line(n: &Proxy, scv: Option<bool>) -> (r: Vec<char>)
    ensures
        r@ == quan_vmess(*n, scv),
{
    let mut v: Vec<char> = Vec::new();
    push_head(&mut v, n, " = vmess, ");
    push_str(&mut v, ", ");
    let method = txt_exec(&n.encrypt_method);
    if eq_str(method.as_slice(), "auto") {
        push_str(&mut v, "chacha20-ietf-poly1305");
    } else {
        push_all(&mut v, method.as_slice());
    }
    push_str(&mut v, ", \"");
    let id = txt_exec(&n.user_id);
    push_all(&mut v, id.as_slice());
    push_str(&mut v, "\", group=");
    push_str(&mut v, n.group.as_str());
    let host = txt_exec(&n.host);
    let ghost t0 = v@;
    if n.tls_secure {
        push_str(&mut v, ", over-tls=true, tls-host=");
        push_all(&mut v, host.as_slice());
        push_certificate(&mut v, scv);
    }
    assert(v@ =~= t0 + (if n.tls_secure {
        ", over-tls=true, tls-host="@ + host@ + certificate(scv)
    } else {
        Seq::empty()
    }));
    let proto = txt_exec(&n.transfer_protocol);
    if eq_str(proto.as_slice(), "ws") {
        push_str(&mut v, ", obfs=ws, obfs-path=\"");
        let path = txt_exec(&n.path);
        push_all(&mut v, path.as_slice());
        push_str(&mut v, "\", obfs-header=\"Host: ");
        push_all(&mut v, host.as_slice());
        let edge = txt_exec(&n.edge);
        let ghost e0 = v@;
        if edge.len() > 0 {
            push_str(&mut v, "[Rr][Nn]Edge: ");
            push_all(&mut v, edge.as_slice());
        }
        assert(v@ =~= e0 + (if edge@.len() > 0 {
            "[Rr][Nn]Edge: "@ + edge@
        } else {
            Seq::empty()
        }));
        push_str(&mut v, "\"");
    }
    assert(v@ =~= quan_vmess(*n, scv));
    v
}

/// The HTTP or SOCKS server line (see [`quan_upstream`]).
fn upstream_line(n: &Proxy, kind: &str, scv: Option<bool>) -> (r: Vec<char>)
    ensures
        r@ == quan_upstream(*n, kind@, scv),
{
    let mut v = chars_of(n.remark.as_str());
    push_str(&mut v, " = ");
    push_str(&mut v, kind);
    push_str(&mut v, ", upstream-proxy-address=");
    push_str(&mut v, n.hostname.as_str());
    push_str(&mut v, ", upstream-proxy-port=");
    let p = u64_decimal(n.port as u64);
    push_all(&mut v, p.as_slice());
    push_str(&mut v, ", group=");
    push_str(&mut v, n.group.as_str());
    let user = txt_exec(&n.username);
    let password = txt_exec(&n.password);
    if user.len() > 0 && password.len() > 0 {
        push_str(&mut v, ", upstream-proxy-auth=true, upstream-proxy-username=");
        push_all(&mut v, user.as_slice());
        push_str(&mut v, ", upstream-proxy-password=");
        push_all(&mut v, password.as_slice());
    } else {
        push_str(&mut v, ", upstream-proxy-auth=false");
    }
    let ghost t0 = v@;
    if n.tls_secure {
        push_str(&mut v, ", over-tls=true");
        let host = txt_exec(&n.host);
        push_text(&mut v, ", tls-host=", host.as_slice());
        push_certificate(&mut v, scv);
    }
    assert(v@ =~= t0 + (if n.tls_secure {
        ", over-tls=true"@ + text_field(", tls-host="@, txt(n.host)) + certificate(scv)
    } else {
        Seq::empty()
    }));
    assert(v@ =~= quan_upstream(*n, kind@, scv));
    v
}

/// The Shadowsocks server line (see [`quan_ss`]).
fn ss_line(n: &Proxy) -> (r: Vec<char>)
    ensures
        r@ == quan_ss(*n),
{
    let mut v: Vec<char> = Vec::new();
    push_head(&mut v, n, " = shadowsocks, ");
    push_str(&mut v, ", ");
    let method = txt_exec(&n.encrypt_method);
    push_all(&mut v, method.as_slice());
    push_str(&mut v, ", \"");
    let password = txt_exec(&n.password);
    push_all(&mut v, password.as_slice());
    push_str(&mut v, "\", group=");
    push_str(&mut v, n.group.as_str());
    let plugin = txt_exec(&n.plugin);
    let opts = txt_exec(&n.plugin_option);
    let ghost p0 = v@;
    if eq_str(plugin.as_slice(), "obfs-local") && opts.len() > 0 {
        push_str(&mut v, ", ");
        let semi = chars_of(";");
        let sep = chars_of(", ");
        proof {
            reveal_strlit(";");
        }
        let replaced = replace_all_exec(opts.as_slice(), semi.as_slice(), sep.as_slice());
        push_all(&mut v, replaced.as_slice());
    }
    assert(v@ =~= quan_ss(*n));
    v
}

/// The ShadowsocksR server line (see [`quan_ssr`]).
fn ssr_line(n: &Proxy) -> (r: Vec<char>)
    ensures
        r@ == quan_ssr(*n),
{
    let mut v: Vec<char> = Vec::new();
    push_head(&mut v, n, " = shadowsocksr, ");
    push_str(&mut v, ", ");
    let method = txt_exec(&n.encrypt_method);
    push_all(&mut v, method.as_slice());
    push_str(&mut v, ", \"");
    let password = txt_exec(&n.password);
    push_all(&mut v, password.as_slice());
    push_str(&mut v, "\", group=");
    push_str(&mut v, n.group.as_str());
    push_str(&mut v, ", protocol=");
    let protocol = txt_exec(&n.protocol);
    push_all(&mut v, protocol.as_slice());
    push_str(&mut v, ", obfs=");
    let obfs = txt_exec(&n.obfs);
    push_all(&mut v, obfs.as_slice());
    let pp = txt_exec(&n.protocol_param);
    push_text(&mut v, ", protocol_param=", pp.as_slice());
    let op = txt_exec(&n.obfs_param);
    push_text(&mut v, ", obfs_param=", op.as_slice());
    assert(v@ =~= quan_ssr(*n));
    v
}

/// `scheme` and a line in URL-safe base64.
fn encoded_link(scheme: &str, line: &[char]) -> (r: String)
    ensures
        r@ == scheme@ + b64_text(line@),
{
    let s = string_of(line);
    let e = url_safe_base64_encode(s.as_str());
    let mut v = chars_of(scheme);
    push_str(&mut v, e.as_str());
    string_of(v.as_slice())
}

/// Appends a text in URL-safe base64.
fn push_b64(v: &mut Vec<char>, t: &[char])
    ensures
        final(v)@ == old(v)@ + b64_text(t@),
{
    let s = string_of(t);
    let e = url_safe_base64_encode(s.as_str());
    push_str(v, e.as_str());
}

/// Appends a text percent-encoded.
fn push_url(v: &mut Vec<char>, t: &[char])
    ensures
        final(v)@ == old(v)@ + url_text(t@),
{
    let s = string_of(t);
    let e = url_encode(s.as_str());
    push_str(v, e.as_str());
}

/// The share link of a ShadowsocksR node.
fn ssr_share(n: &Proxy) -> (r: Vec<char>)
    ensures
        r@ == ssr_link(
            *n,
            txt(n.protocol),
            txt(n.obfs),
            "&obfsparam="@ + b64_text(txt(n.obfs_param)) + "&protoparam="@ + b64_text(txt(n.protocol_param)),
        ),
{
    let protocol = txt_exec(&n.protocol);
    let obfs = txt_exec(&n.obfs);
    let mut params = chars_of("&obfsparam=");
    let op = txt_exec(&n.obfs_param);
    push_b64(&mut params, op.as_slice());
    push_str(&mut params, "&protoparam=");
    let pp = txt_exec(&n.protocol_param);
    push_b64(&mut params, pp.as_slice());
    super::single::ssr_link_exec(n, protocol.as_slice(), obfs.as_slice(), params.as_slice())
}

/// The share link of a Shadowsocks node for a node list.
fn ss_share(n: &Proxy) -> (r: Vec<char>)
    ensures
        r@ == ss_link(*n) + (if txt(n.plugin).len() > 0 && txt(n.plugin_option).len() > 0 {
            "/?plugin="@ + url_text(txt(n.plugin) + ";"@ + txt(n.plugin_option))
        } else {
            Seq::empty()
        }) + "&group="@ + b64_text(n.group@) + "#"@ + url_text(n.remark@),
{
    let mut v = super::single::ss_link_exec(n);
    let plugin = txt_exec(&n.plugin);
    let opts = txt_exec(&n.plugin_option);
    let ghost p0 = v@;
    if plugin.len() > 0 && opts.len() > 0 {
        push_str(&mut v, "/?plugin=");
        let mut po = plugin.clone();
        push_str(&mut po, ";");
        push_all(&mut po, opts.as_slice());
        push_url(&mut v, po.as_slice());
    }
    assert(v@ =~= p0 + (if plugin@.len() > 0 && opts@.len() > 0 {
        "/?plugin="@ + url_text(plugin@ + ";"@ + opts@)
    } else {
        Seq::empty()
    }));
    push_str(&mut v, "&group=");
    let group = chars_of(n.group.as_str());
    push_b64(&mut v, group.as_slice());
    push_str(&mut v, "#");
    let remark = chars_of(n.remark.as_str());
    push_url(&mut v, remark.as_slice());
    v
}

/// What the `SERVER` section of Quantumult gets for a node (see
/// [`quan_line_of`]); `ext_scv` is the default of the conversion and
/// `nodelist` asks for share links.
pub fn quan_proxy_line(node: &Proxy, ext_scv: Option<bool>, nodelist: bool) -> (r: Option<String>)
    ensures
        ov(r) == quan_line_of(*node, ext_scv, nodelist),
{
    let scv = match node.allow_insecure {
        Some(b) => Some(b),
        None => ext_scv,
    };
    match node.proxy_type {
        ProxyType::VMess => {
            let v = vmess_line(node, scv);
            if nodelist {
                Some(encoded_link("vmess://", v.as_slice()))
            } else {
                Some(string_of(v.as_slice()))
            }
        },
        ProxyType::ShadowsocksR => {
            if nodelist {
                let v = ssr_share(node);
                Some(string_of(v.as_slice()))
            } else {
                let v = ssr_line(node);
                Some(string_of(v.as_slice()))
            }
        },
        ProxyType::Shadowsocks => {
            if nodelist {
                let v = ss_share(node);
                Some(string_of(v.as_slice()))
            } else {
                let v = ss_line(node);
                Some(string_of(v.as_slice()))
            }
        },
        ProxyType::HTTP | ProxyType::HTTPS => {
            let v = upstream_line(node, "http", scv);
            if nodelist {
                Some(encoded_link("http://", v.as_slice()))
            } else {
                Some(string_of(v.as_slice()))
            }
        },
        ProxyType::Socks5 => {
            let v = upstream_line(node, "socks", scv);
            if nodelist {
                Some(encoded_link("socks://", v.as_slice()))
            } else {
                Some(string_of(v.as_slice()))
            }
        },
        _ => None,
    }
}

// ---------------------------------------------------------------------------
// Policy entries
// ---------------------------------------------------------------------------
/// The pattern that finds a cellular setting in an SSID rule: the text
/// before it, its value, and the rest from the next comma.
pub open spec fn celluar_pattern() -> Seq<char> {
    "^(.*?),?celluar\\s?=\\s?(.*?)(,.*)$"@
}

/// One SSID rule read into the rules text and the cellular policy so far:
/// a rule with a cellular setting gives the policy and is kept without it;
/// any other rule is kept whole. Each rule ends with a line break.
pub open spec fn ssid_step(acc: (Seq<char>, Seq<char>), rule: Seq<char>) -> (Seq<char>, Seq<char>) {
    let caps = regex_captures(celluar_pattern(), rule);
    if caps.len() == 4 && caps[2].len() > 0 {
        (acc.0 + caps[1] + caps[3] + "\n"@, caps[2])
    } else {
        (acc.0 + rule + "\n"@, acc.1)
    }
}

/// The rules text and cellular policy of a list of SSID rules.
pub open spec fn ssid_scan(rules: Seq<Seq<char>>) -> (Seq<char>, Seq<char>)
    decreases rules.len(),
{
    if rules.len() == 0 {
        (Seq::empty(), Seq::empty())
    } else {
        ssid_step(ssid_scan(rules.drop_last()), rules.last())
    }
}

/// `s` without the leading copies of `c`.
pub open spec fn strip_start(s: Seq<char>, c: char) -> Seq<char>
    decreases s.len(),
{
    if s.len() > 0 && s[0] == c {
        strip_start(s.skip(1), c)
    } else {
        s
    }
}

/// `s` without the trailing copies of `c`.
pub open spec fn strip_end(s: Seq<char>, c: char) -> Seq<char>
    decreases s.len(),
{
    if s.len() > 0 && s.last() == c {
        strip_end(s.drop_last(), c)
    } else {
        s
    }
}

/// The members of a policy: the nodes chosen for it, or `direct` where
/// none was.
pub open spec fn quan_members(generated: Seq<Seq<char>>) -> Seq<Seq<char>> {
    if generated.len() == 0 {
        seq!["direct"@]
    } else {
        generated
    }
}

/// The text of a policy of Quantumult (it is stored in base64): a head
/// line and the members one per line; a selecting or fallback policy is
/// `static` on its first member, a testing one `auto` and a load-balancing
/// one `balance, round-robin`, each `static` where it has fewer than two
/// members. An SSID policy names its default, the cellular policy where a
/// rule gives one, and its rules one per line (commas at the ends dropped,
/// the others breaking lines). `None` for other kinds and for an SSID
/// policy without entries.
pub open spec fn quan_group_text(g: ProxyGroupConfig, generated: Seq<Seq<char>>) -> Option<Seq<char>> {
    let m = quan_members(generated);
    let tail = "\n"@ + join(m, "\n"@) + "\n"@;
    let static_head = g.name@ + " : static, "@ + m[0];
    match g.group_type {
        ProxyGroupType::Select | ProxyGroupType::Fallback => Some(static_head + tail),
        ProxyGroupType::URLTest => Some(
            (if m.len() < 2 {
                static_head
            } else {
                g.name@ + " : auto"@
            }) + tail,
        ),
        ProxyGroupType::LoadBalance => Some(
            (if m.len() < 2 {
                static_head
            } else {
                g.name@ + " : balance, round-robin"@
            }) + tail,
        ),
        ProxyGroupType::SSID => if g.proxies@.len() < 1 {
            None
        } else {
            let scan = ssid_scan(string_views(g.proxies@).skip(1));
            Some(
                g.name@ + " : wifi = "@ + g.proxies@[0]@ + text_field(", celluar = "@, scan.1) + "\n"@
                    + replace_all(strip_end(strip_start(scan.0, ','), ','), ","@, "\n"@),
            )
        },
        _ => None,
    }
}

/// `s` without the leading and trailing copies of `c`.
fn strip_exec(s: &[char], c: char) -> (r: Vec<char>)
    ensures
        r@ == strip_end(strip_start(s@, c), c),
{
    let mut a: usize = 0;
    assert(s@.skip(0) =~= s@);
    while a < s.len() && s[a] == c
        invariant
            a <= s@.len(),
            strip_start(s@.skip(a as int), c) == strip_start(s@, c),
        decreases s@.len() - a,
    {
        assert(s@.skip(a as int).skip(1) =~= s@.skip(a + 1));
        a = a + 1;
    }
    let ghost mid = s@.skip(a as int);
    assert(strip_start(mid, c) == mid);
    let mut b: usize = s.len();
    assert(mid.take(mid.len() as int) =~= mid);
    while b > a && s[b - 1] == c
        invariant
            a <= b <= s@.len(),
            mid == s@.skip(a as int),
            strip_end(mid.take(b - a), c) == strip_end(mid, c),
        decreases b,
    {
        assert(mid.take(b - a).drop_last() =~= mid.take(b - 1 - a));
        assert(mid.take(b - a).last() == s@[b - 1]);
        b = b - 1;
    }
    let r = crate::text::slice_chars(s, a, b);
    assert(r@ =~= mid.take(b - a));
    r
}

/// The rules text and cellular policy of the SSID rules of a group (see
/// [`ssid_scan`]).
fn ssid_scan_exec(rules: &Vec<String>) -> (r: (Vec<char>, Vec<char>))
    requires
        rules@.len() >= 1,
    ensures
        (r.0@, r.1@) == ssid_scan(string_views(rules@).skip(1)),
{
    let ghost rv = string_views(rules@).skip(1);
    let mut content: Vec<char> = Vec::new();
    let mut cell: Vec<char> = Vec::new();
    let mut i: usize = 1;
    assert(rv.take(0) =~= Seq::<Seq<char>>::empty());
    while i < rules.len()
        invariant
            1 <= i <= rules@.len(),
            rv == string_views(rules@).skip(1),
            (content@, cell@) == ssid_scan(rv.take(i - 1)),
        decreases rules@.len() - i,
    {
        assert(rv.take(i as int).drop_last() =~= rv.take(i - 1));
        assert(rv.take(i as int).last() == rules@[i as int]@);
        let caps = reg_get_match(rules[i].as_str(), "^(.*?),?celluar\\s?=\\s?(.*?)(,.*)$");
        proof {
            reveal_strlit("^(.*?),?celluar\\s?=\\s?(.*?)(,.*)$");
        }
        let ghost cv = regex_captures(celluar_pattern(), rules@[i as int]@);
        assert(cv == string_views(caps@));
        let ghost before = (content@, cell@);
        if caps.len() == 4 && !caps[2].as_str().is_empty() {
            assert(cv[1] == caps@[1]@ && cv[2] == caps@[2]@ && cv[3] == caps@[3]@);
            push_str(&mut content, caps[1].as_str());
            push_str(&mut content, caps[3].as_str());
            push_str(&mut content, "\n");
            cell = chars_of(caps[2].as_str());
            assert(content@ =~= before.0 + cv[1] + cv[3] + "\n"@);
        } else {
            push_str(&mut content, rules[i].as_str());
            push_str(&mut content, "\n");
            assert(content@ =~= before.0 + rules@[i as int]@ + "\n"@);
        }
        assert((content@, cell@) == ssid_step(before, rules@[i as int]@));
        i = i + 1;
    }
    assert(rv.take(i - 1) =~= rv);
    (content, cell)
}

/// The base64 text of a policy of Quantumult (see [`quan_group_text`]);
/// `generated` holds the nodes chosen for the group.
pub fn quan_group_line(group: &ProxyGroupConfig, generated: &Vec<String>) -> (r: Option<String>)
    ensures
        match quan_group_text(*group, string_views(generated@)) {
            Some(t) => ov(r) == Some(base64(encode_utf8(t))),
            None => r is None,
        },
{
    let t = group.group_type;
    let mut v: Vec<char> = Vec::new();
    if t == ProxyGroupType::SSID {
        if group.proxies.len() < 1 {
            return None;
        }
        let (content, cell) = ssid_scan_exec(&group.proxies);
        push_str(&mut v, group.name.as_str());
        push_str(&mut v, " : wifi = ");
        push_str(&mut v, group.proxies[0].as_str());
        push_text(&mut v, ", celluar = ", cell.as_slice());
        push_str(&mut v, "\n");
        let stripped = strip_exec(content.as_slice(), ',');
        let comma = chars_of(",");
        let nl = chars_of("\n");
        proof {
            reveal_strlit(",");
        }
        let lines = replace_all_exec(stripped.as_slice(), comma.as_slice(), nl.as_slice());
        push_all(&mut v, lines.as_slice());
        assert(string_views(group.proxies@)[0] == group.proxies@[0]@);
    } else {
        if t != ProxyGroupType::Select && t != ProxyGroupType::Fallback && t != ProxyGroupType::URLTest
            && t != ProxyGroupType::LoadBalance {
            return None;
        }
        let mut members: Vec<String> = Vec::new();
        if generated.len() == 0 {
            members.push("direct".to_owned());
        } else {
            members = generated.clone();
        }
        assert(string_views(members@) =~= quan_members(string_views(generated@)));
        push_str(&mut v, group.name.as_str());
        if t == ProxyGroupType::Select || t == ProxyGroupType::Fallback || members.len() < 2 {
            push_str(&mut v, " : static, ");
            push_str(&mut v, members[0].as_str());
        } else if t == ProxyGroupType::URLTest {
            push_str(&mut v, " : auto");
        } else {
            push_str(&mut v, " : balance, round-robin");
        }
        push_str(&mut v, "\n");
        push_joined_by(&mut v, &members, "\n");
        push_str(&mut v, "\n");
    }
    let text = string_of(v.as_slice());
    assert(text@ =~= quan_group_text(*group, string_views(generated@))->0);
    Some(base64_encode(text.as_str()))
}


/// The stored (base64) form of a policy of Quantumult (see
/// [`quan_group_text`]).
pub open spec fn quan_group_line_of(g: ProxyGroupConfig, generated: Seq<Seq<char>>) -> Option<Seq<char>> {
    match quan_group_text(g, generated) {
        Some(t) => Some(base64(encode_utf8(t))),
        None => None,
    }
}

/// Whether a policy of kind `t` lists the nodes its rules choose in a
/// Quantumult configuration.
pub open spec fn quan_lists(t: ProxyGroupType) -> bool {
    t == ProxyGroupType::Select || t == ProxyGroupType::URLTest || t == ProxyGroupType::Fallback || t
        == ProxyGroupType::LoadBalance
}

/// The stored policies of a Quantumult configuration, one per group (see
/// [`quan_group_line_of`]): a group that lists nodes has the members its
/// rules give it among `nodes`, direct entries included.
pub open spec fn quan_group_lines_of(groups: Seq<ProxyGroupConfig>, nodes: Seq<Proxy>, authorized: bool) -> Seq<
    Option<Seq<char>>,
> {
    Seq::new(groups.len(), |i: int| quan_group_line_of(groups[i], rule_members(groups[i], nodes, true, authorized)))
}

/// The stored policies of a Quantumult configuration (see
/// [`quan_group_lines_of`]). The rules of each group that lists nodes must
/// fit the nodes.
pub fn quan_group_lines(groups: &Vec<ProxyGroupConfig>, nodes: &[Proxy], ext: &ExtraSettings) -> (r: Vec<
    Option<String>,
>)
    requires
        forall|i: int|
            0 <= i < groups@.len() && quan_lists((#[trigger] groups@[i]).group_type) ==> group_fits(
                groups@[i],
                nodes@,
            ),
    ensures
        r@.len() == groups@.len(),
        forall|i: int|
            0 <= i < groups@.len() ==> ov(#[trigger] r@[i]) == quan_group_lines_of(groups@, nodes@, ext.authorized)[i],
{
    let mut r: Vec<Option<String>> = Vec::new();
    let mut i: usize = 0;
    while i < groups.len()
        invariant
            i <= groups@.len(),
            r@.len() == i,
            forall|k: int|
                0 <= k < groups@.len() && quan_lists((#[trigger] groups@[k]).group_type) ==> group_fits(
                    groups@[k],
                    nodes@,
                ),
            forall|k: int|
                0 <= k < i ==> ov(#[trigger] r@[k]) == quan_group_lines_of(groups@, nodes@, ext.authorized)[k],
        decreases groups@.len() - i,
    {
        let g = &groups[i];
        let t = g.group_type;
        let members = if t == ProxyGroupType::Select || t == ProxyGroupType::URLTest || t == ProxyGroupType::Fallback
            || t == ProxyGroupType::LoadBalance {
            group_rule_members(g, nodes, true, ext)
        } else {
            Vec::new()
        };
        let line = quan_group_line(g, &members);
        assert(ov(line) == quan_group_lines_of(groups@, nodes@, ext.authorized)[i as int]);
        r.push(line);
        i = i + 1;
    }
    r
}


/// A Quantumult configuration: the base configuration `base` with the node
/// lines in `SERVER`, the group lines in `POLICY` and the rules in
/// `TCP` (see [`client_updates`]); the base's own nodes and groups are replaced, and the
/// base's rules are kept before the new ones unless
/// `overwrite_original_rules`.
pub fn quan_config(
    base: &str,
    node_lines: &Vec<String>,
    group_lines: &Vec<String>,
    rules: &Vec<String>,
    overwrite_original_rules: bool,
) -> (r: String)
    ensures
        r@ == ini_text_of(
            with_sections(
                ini_sections(base@),
                client_updates(
                    ini_sections(base@),
                    "SERVER"@,
                    false,
                    string_views(node_lines@),
                    "POLICY"@,
                    false,
                    string_views(group_lines@),
                    "TCP"@,
                    string_views(rules@),
                    None,
                    Seq::empty(),
                    overwrite_original_rules,
                ),
            ),
        ),
{
    let none: Vec<String> = Vec::new();
    assert(string_views(none@) =~= Seq::<Seq<char>>::empty());
    client_config(
        base,
        "SERVER",
        false,
        node_lines,
        "POLICY",
        false,
        group_lines,
        "TCP",
        rules,
        None,
        &none,
        overwrite_original_rules,
    )
}

} // verus!

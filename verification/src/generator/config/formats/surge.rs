//! The Surge client format.
use super::loon::{join, push_joined, push_number};
use crate::generator::config::group::{group_fits, group_rule_members, rule_members};
use crate::models::extra_settings::ExtraSettings;
use crate::utils::ini::{ini_sections, ini_text, ini_text_of, parse_ini, section_lines, with_sections, IniView};
use crate::models::proxy::{Proxy, ProxyType};
use crate::models::proxy_group_config::{group_type_name, ProxyGroupConfig, ProxyGroupType};
use crate::text::{
    chars_of, eq_str, nat_decimal, push_all, push_str, replace_all, replace_all_exec, std_lowercase,
    string_of, string_views, to_lowercase_str, u64_decimal,
};
use crate::text::{contains_seq, has_prefix, lemma_contains_middle};
use vstd::prelude::*;

verus! {

/// The peer line of a WireGuard node in the Surge format: public key,
/// endpoint, allowed IPs and client id, each only where the node has it;
/// the client id is written as `reserved` when `reserved` holds.
pub open spec fn surge_peer(node: Proxy, reserved: bool) -> Seq<char> {
    let key = match node.public_key {
        Some(k) => "public-key = "@ + k@ + ", "@,
        None => Seq::<char>::empty(),
    };
    let ips = if node.allowed_ips@.len() > 0 {
        ", allowed-ips = "@ + node.allowed_ips@
    } else {
        Seq::<char>::empty()
    };
    let id = match node.client_id {
        Some(c) => if c@.len() > 0 {
            (if reserved {
                ", reserved = "@
            } else {
                ", client-id = "@
            }) + c@
        } else {
            Seq::<char>::empty()
        },
        None => Seq::<char>::empty(),
    };
    key + "endpoint = "@ + node.hostname@ + ":"@ + nat_decimal(node.port as nat) + ips + id
}

/// The peer line of a WireGuard node for Surge (see [`surge_peer`]).
pub fn generate_peer(node: &Proxy, client_id_as_reserved: bool) -> (r: String)
    ensures
        r@ == surge_peer(*node, client_id_as_reserved),
{
    let mut peer: Vec<char> = Vec::new();
    if let Some(public_key) = &node.public_key {
        push_str(&mut peer, "public-key = ");
        push_str(&mut peer, public_key.as_str());
        push_str(&mut peer, ", ");
    }
    push_str(&mut peer, "endpoint = ");
    push_str(&mut peer, node.hostname.as_str());
    push_str(&mut peer, ":");
    let port = u64_decimal(node.port as u64);
    push_all(&mut peer, port.as_slice());
    if !node.allowed_ips.as_str().is_empty() {
        push_str(&mut peer, ", allowed-ips = ");
        push_str(&mut peer, node.allowed_ips.as_str());
    }
    if let Some(client_id) = &node.client_id {
        if !client_id.as_str().is_empty() {
            if client_id_as_reserved {
                push_str(&mut peer, ", reserved = ");
            } else {
                push_str(&mut peer, ", client-id = ");
            }
            push_str(&mut peer, client_id.as_str());
        }
    }
    let r = string_of(peer.as_slice());
    assert(r@ =~= surge_peer(*node, client_id_as_reserved));
    r
}

// ---------------------------------------------------------------------------
// Proxy lines
// ---------------------------------------------------------------------------
/// An optional text as written: empty where it is unset.
pub open spec fn txt(o: Option<String>) -> Seq<char> {
    match o {
        Some(s) => s@,
        None => Seq::empty(),
    }
}

/// `true` or `false`.
pub open spec fn tf(b: bool) -> Seq<char> {
    if b {
        "true"@
    } else {
        "false"@
    }
}

/// `key` and the flag, where the flag is set.
pub open spec fn flag_field(key: Seq<char>, o: Option<bool>) -> Seq<char> {
    match o {
        Some(b) => key + tf(b),
        None => Seq::empty(),
    }
}

/// `key` and the text, where the text is not empty.
pub open spec fn text_field(key: Seq<char>, v: Seq<char>) -> Seq<char> {
    if v.len() > 0 {
        key + v
    } else {
        Seq::empty()
    }
}

/// A node's setting where it has one, else the default.
pub open spec fn defined(own: Option<bool>, default: Option<bool>) -> Option<bool> {
    match own {
        Some(_) => own,
        None => default,
    }
}

/// What the proxy section of a Surge-like configuration gets for a node.
pub enum SurgeLineView {
    /// This line.
    Line(Seq<char>),
    /// Nothing: the client cannot use the node.
    Skip,
    /// A line that needs more than the node: a WireGuard node needs the
    /// name of its section ([`surge_wireguard`]), a ShadowsocksR node its
    /// local port and resolved address ([`surge_ssr_line`]).
    Elsewhere,
}

/// What the proxy section gets for a node (see [`SurgeLineView`]).
#[derive(Debug, Clone)]
pub enum SurgeProxyLine {
    Line(String),
    Skip,
    Elsewhere,
}

impl View for SurgeProxyLine {
    type V = SurgeLineView;

    open spec fn view(&self) -> SurgeLineView {
        match self {
            SurgeProxyLine::Line(s) => SurgeLineView::Line(s@),
            SurgeProxyLine::Skip => SurgeLineView::Skip,
            SurgeProxyLine::Elsewhere => SurgeLineView::Elsewhere,
        }
    }
}

/// Server and port, each after a comma.
pub open spec fn at(n: Proxy) -> Seq<char> {
    ", "@ + n.hostname@ + ", "@ + nat_decimal(n.port as nat)
}

/// The Shadowsocks line: native for Surge 3 and later (and Surfboard), an
/// external module before; only the `simple-obfs` plugin is carried over.
pub open spec fn ss_body(n: Proxy, surge_ver: int) -> SurgeLineView {
    let head = if surge_ver >= 3 || surge_ver == -3 {
        "ss"@ + at(n) + ", encrypt-method="@ + txt(n.encrypt_method) + ", password="@ + txt(n.password)
    } else {
        "custom"@ + at(n) + ", "@ + txt(n.encrypt_method) + ", "@ + txt(n.password)
            + ", https://github.com/pobizhe/SSEncrypt/raw/master/SSEncrypt.module"@
    };
    let plugin = txt(n.plugin);
    if plugin.len() == 0 {
        SurgeLineView::Line(head)
    } else if plugin == "simple-obfs"@ || plugin == "obfs-local"@ {
        SurgeLineView::Line(
            head + if txt(n.plugin_option).len() > 0 {
                ","@ + replace_all(txt(n.plugin_option), ";"@, ","@)
            } else {
                Seq::empty()
            },
        )
    } else {
        SurgeLineView::Skip
    }
}

/// The `ws-headers` part of a VMess line.
pub open spec fn ws_headers(host: Seq<char>, edge: Seq<char>) -> Seq<char> {
    if host.len() > 0 && edge.len() > 0 {
        ", ws-headers=Host:"@ + host + "|Edge:"@ + edge
    } else if host.len() > 0 {
        ", ws-headers=Host:"@ + host
    } else if edge.len() > 0 {
        ", ws-headers=Edge:"@ + edge
    } else {
        Seq::empty()
    }
}

/// The VMess line, for Surge 4 and later and Surfboard, over TCP or
/// WebSocket only.
pub open spec fn vmess_body(n: Proxy, scv: Option<bool>, tls13: Option<bool>, surge_ver: int) -> SurgeLineView {
    let head = "vmess"@ + at(n) + ", username="@ + txt(n.user_id) + ", tls="@ + tf(n.tls_secure)
        + ", vmess-aead="@ + tf(n.alter_id == 0) + if n.tls_secure {
        flag_field(", tls13="@, tls13)
    } else {
        Seq::empty()
    };
    let proto = txt(n.transfer_protocol);
    let host = txt(n.host);
    if surge_ver < 4 && surge_ver != -3 {
        SurgeLineView::Skip
    } else if proto == "tcp"@ {
        SurgeLineView::Line(head + flag_field(", skip-cert-verify="@, scv))
    } else if proto == "ws"@ {
        SurgeLineView::Line(
            head + ", ws=true, ws-path="@ + txt(n.path) + ", sni="@ + (if host.len() == 0 {
                n.hostname@
            } else {
                host
            }) + ws_headers(host, txt(n.edge)) + flag_field(", skip-cert-verify="@, scv),
        )
    } else {
        SurgeLineView::Skip
    }
}

/// The HTTP line, with TLS on or off.
pub open spec fn http_body(n: Proxy, scv: Option<bool>) -> Seq<char> {
    "http"@ + at(n) + text_field(", username="@, txt(n.username)) + text_field(
        ", password="@,
        txt(n.password),
    ) + ", tls="@ + tf(n.tls_secure) + flag_field(", skip-cert-verify="@, scv)
}

/// The HTTPS line of Surfboard: address, port, user name and password,
/// and the certificate check where it is set.
pub open spec fn surfboard_https_body(n: Proxy, scv: Option<bool>) -> Seq<char> {
    "https"@ + at(n) + ", "@ + txt(n.username) + ", "@ + txt(n.password) + flag_field(
        ", skip-cert-verify="@,
        scv,
    )
}

/// The line of a node without its general options (see [`surge_line_of`]).
pub open spec fn node_body(
    n: Proxy,
    scv: Option<bool>,
    tls13: Option<bool>,
    surge_ver: int,
    ssr_path: Seq<char>,
) -> SurgeLineView {
    let version = if n.snell_version != 0 {
        ", version="@ + nat_decimal(n.snell_version as nat)
    } else {
        Seq::empty()
    };
    match n.proxy_type {
        ProxyType::Shadowsocks => ss_body(n, surge_ver),
        ProxyType::VMess => vmess_body(n, scv, tls13, surge_ver),
        ProxyType::ShadowsocksR => if ssr_path.len() == 0 || surge_ver < 2 {
            SurgeLineView::Skip
        } else {
            SurgeLineView::Elsewhere
        },
        ProxyType::Socks5 => SurgeLineView::Line(
            "socks5"@ + at(n) + text_field(", username="@, txt(n.username)) + text_field(
                ", password="@,
                txt(n.password),
            ) + flag_field(", skip-cert-verify="@, scv),
        ),
        ProxyType::HTTPS => if surge_ver == -3 {
            SurgeLineView::Line(surfboard_https_body(n, scv))
        } else {
            SurgeLineView::Line(http_body(n, scv))
        },
        ProxyType::HTTP => SurgeLineView::Line(http_body(n, scv)),
        ProxyType::Trojan => if surge_ver < 4 && surge_ver != -3 {
            SurgeLineView::Skip
        } else {
            SurgeLineView::Line(
                "trojan"@ + at(n) + ", password="@ + txt(n.password) + version + text_field(
                    ", sni="@,
                    txt(n.host),
                ) + flag_field(", skip-cert-verify="@, scv),
            )
        },
        ProxyType::Snell => SurgeLineView::Line(
            "snell"@ + at(n) + ", psk="@ + txt(n.password) + (if txt(n.obfs).len() > 0 {
                ", obfs="@ + txt(n.obfs) + text_field(", obfs-host="@, txt(n.host))
            } else {
                Seq::empty()
            }) + version,
        ),
        ProxyType::WireGuard => if surge_ver < 4 && surge_ver != -3 {
            SurgeLineView::Skip
        } else {
            SurgeLineView::Elsewhere
        },
        ProxyType::Hysteria2 => if surge_ver < 4 {
            SurgeLineView::Skip
        } else {
            SurgeLineView::Line(
                "hysteria"@ + at(n) + ", password="@ + txt(n.password) + (if n.down_speed > 0 {
                    ", download-bandwidth="@ + nat_decimal(n.down_speed as nat)
                } else {
                    Seq::empty()
                }) + flag_field(",skip-cert-verify="@, scv) + text_field(
                    ",server-cert-fingerprint-sha256="@,
                    txt(n.fingerprint),
                ) + text_field(",sni="@, txt(n.sni)),
            )
        },
        _ => SurgeLineView::Skip,
    }
}

/// What the proxy section of the client of version `surge_ver` (Surfboard:
/// -3) gets for the node `n`, its settings taking the defaults `ext_*` where
/// it has none: the line of its protocol followed by TCP Fast Open, UDP
/// relay and underlying proxy where set.
pub open spec fn surge_line_of(
    n: Proxy,
    ext_udp: Option<bool>,
    ext_tfo: Option<bool>,
    ext_scv: Option<bool>,
    ext_tls13: Option<bool>,
    surge_ver: int,
    ssr_path: Seq<char>,
) -> SurgeLineView {
    match node_body(n, defined(n.allow_insecure, ext_scv), defined(n.tls13, ext_tls13), surge_ver, ssr_path) {
        SurgeLineView::Line(b) => SurgeLineView::Line(
            b + flag_field(", tfo="@, defined(n.tcp_fast_open, ext_tfo)) + flag_field(
                ", udp-relay="@,
                defined(n.udp, ext_udp),
            ) + text_field(", underlying-proxy="@, txt(n.underlying_proxy)),
        ),
        other => other,
    }
}

/// The characters of an optional text, empty where it is unset.
pub(crate) fn txt_exec(o: &Option<String>) -> (r: Vec<char>)
    ensures
        r@ == txt(*o),
{
    match o {
        Some(s) => chars_of(s.as_str()),
        None => Vec::new(),
    }
}

/// Appends `key` and the flag where the flag is set (see [`flag_field`]).
pub(crate) fn push_flag(v: &mut Vec<char>, key: &str, o: Option<bool>)
    ensures
        final(v)@ == old(v)@ + flag_field(key@, o),
{
    match o {
        Some(b) => {
            push_str(v, key);
            push_str(
                v,
                if b {
                    "true"
                } else {
                    "false"
                },
            );
        },
        None => {},
    }
    assert(v@ =~= old(v)@ + flag_field(key@, o));
}

/// Appends `key` and the text where it is not empty (see [`text_field`]).
pub(crate) fn push_text(v: &mut Vec<char>, key: &str, t: &[char])
    ensures
        final(v)@ == old(v)@ + text_field(key@, t@),
{
    if t.len() > 0 {
        push_str(v, key);
        push_all(v, t);
    }
    assert(v@ =~= old(v)@ + text_field(key@, t@));
}

/// Appends server and port (see [`at`]).
fn push_at(v: &mut Vec<char>, n: &Proxy)
    ensures
        final(v)@ == old(v)@ + at(*n),
{
    push_str(v, ", ");
    push_str(v, n.hostname.as_str());
    push_str(v, ", ");
    let p = u64_decimal(n.port as u64);
    push_all(v, p.as_slice());
    assert(v@ =~= old(v)@ + at(*n));
}

/// The Shadowsocks line (see [`ss_body`]).
fn ss_line(n: &Proxy, surge_ver: i32) -> (r: SurgeProxyLine)
    ensures
        r@ == ss_body(*n, surge_ver as int),
{
    let mut v: Vec<char> = Vec::new();
    let method = txt_exec(&n.encrypt_method);
    let password = txt_exec(&n.password);
    if surge_ver >= 3 || surge_ver == -3 {
        push_str(&mut v, "ss");
        push_at(&mut v, n);
        push_str(&mut v, ", encrypt-method=");
        push_all(&mut v, method.as_slice());
        push_str(&mut v, ", password=");
        push_all(&mut v, password.as_slice());
    } else {
        push_str(&mut v, "custom");
        push_at(&mut v, n);
        push_str(&mut v, ", ");
        push_all(&mut v, method.as_slice());
        push_str(&mut v, ", ");
        push_all(&mut v, password.as_slice());
        push_str(&mut v, ", https://github.com/pobizhe/SSEncrypt/raw/master/SSEncrypt.module");
    }
    let ghost head = v@;
    assert(head =~= (if surge_ver >= 3 || surge_ver == -3 {
        "ss"@ + at(*n) + ", encrypt-method="@ + txt(n.encrypt_method) + ", password="@ + txt(n.password)
    } else {
        "custom"@ + at(*n) + ", "@ + txt(n.encrypt_method) + ", "@ + txt(n.password)
            + ", https://github.com/pobizhe/SSEncrypt/raw/master/SSEncrypt.module"@
    }));
    let plugin = txt_exec(&n.plugin);
    if plugin.len() == 0 {
        return SurgeProxyLine::Line(string_of(v.as_slice()));
    }
    if eq_str(plugin.as_slice(), "simple-obfs") || eq_str(plugin.as_slice(), "obfs-local") {
        let opts = txt_exec(&n.plugin_option);
        if opts.len() > 0 {
            push_str(&mut v, ",");
            let semi = chars_of(";");
            let comma = chars_of(",");
            proof {
                reveal_strlit(";");
            }
            let replaced = replace_all_exec(opts.as_slice(), semi.as_slice(), comma.as_slice());
            push_all(&mut v, replaced.as_slice());
            assert(v@ =~= head + (","@ + replace_all(txt(n.plugin_option), ";"@, ","@)));
        } else {
            assert(v@ =~= head + Seq::<char>::empty());
        }
        SurgeProxyLine::Line(string_of(v.as_slice()))
    } else {
        SurgeProxyLine::Skip
    }
}

/// The VMess line (see [`vmess_body`]).
fn vmess_line(n: &Proxy, scv: Option<bool>, tls13: Option<bool>, surge_ver: i32) -> (r: SurgeProxyLine)
    ensures
        r@ == vmess_body(*n, scv, tls13, surge_ver as int),
{
    if surge_ver < 4 && surge_ver != -3 {
        return SurgeProxyLine::Skip;
    }
    let mut v: Vec<char> = Vec::new();
    push_str(&mut v, "vmess");
    push_at(&mut v, n);
    push_str(&mut v, ", username=");
    let id = txt_exec(&n.user_id);
    push_all(&mut v, id.as_slice());
    push_str(&mut v, ", tls=");
    push_str(&mut v, if n.tls_secure { "true" } else { "false" });
    push_str(&mut v, ", vmess-aead=");
    push_str(&mut v, if n.alter_id == 0 { "true" } else { "false" });
    if n.tls_secure {
        push_flag(&mut v, ", tls13=", tls13);
    }
    let proto = txt_exec(&n.transfer_protocol);
    let host = txt_exec(&n.host);
    if eq_str(proto.as_slice(), "tcp") {
    } else if eq_str(proto.as_slice(), "ws") {
        push_str(&mut v, ", ws=true, ws-path=");
        let path = txt_exec(&n.path);
        push_all(&mut v, path.as_slice());
        push_str(&mut v, ", sni=");
        if host.len() == 0 {
            push_str(&mut v, n.hostname.as_str());
        } else {
            push_all(&mut v, host.as_slice());
        }
        let edge = txt_exec(&n.edge);
        let ghost before = v@;
        if host.len() > 0 && edge.len() > 0 {
            push_str(&mut v, ", ws-headers=Host:");
            push_all(&mut v, host.as_slice());
            push_str(&mut v, "|Edge:");
            push_all(&mut v, edge.as_slice());
        } else if host.len() > 0 {
            push_str(&mut v, ", ws-headers=Host:");
            push_all(&mut v, host.as_slice());
        } else if edge.len() > 0 {
            push_str(&mut v, ", ws-headers=Edge:");
            push_all(&mut v, edge.as_slice());
        }
        assert(v@ =~= before + ws_headers(host@, edge@));
    } else {
        return SurgeProxyLine::Skip;
    }
    push_flag(&mut v, ", skip-cert-verify=", scv);
    SurgeProxyLine::Line(string_of(v.as_slice()))
}

/// The HTTP line (see [`http_body`]).
fn http_line(n: &Proxy, scv: Option<bool>) -> (r: String)
    ensures
        r@ == http_body(*n, scv),
{
    let mut v: Vec<char> = Vec::new();
    push_str(&mut v, "http");
    push_at(&mut v, n);
    let user = txt_exec(&n.username);
    push_text(&mut v, ", username=", user.as_slice());
    let password = txt_exec(&n.password);
    push_text(&mut v, ", password=", password.as_slice());
    push_str(&mut v, ", tls=");
    push_str(&mut v, if n.tls_secure { "true" } else { "false" });
    push_flag(&mut v, ", skip-cert-verify=", scv);
    string_of(v.as_slice())
}

/// The HTTPS line of Surfboard (see [`surfboard_https_body`]).
fn surfboard_https_line(n: &Proxy, scv: Option<bool>) -> (r: String)
    ensures
        r@ == surfboard_https_body(*n, scv),
{
    let mut v: Vec<char> = Vec::new();
    push_str(&mut v, "https");
    push_at(&mut v, n);
    push_str(&mut v, ", ");
    let user = txt_exec(&n.username);
    push_all(&mut v, user.as_slice());
    push_str(&mut v, ", ");
    let password = txt_exec(&n.password);
    push_all(&mut v, password.as_slice());
    push_flag(&mut v, ", skip-cert-verify=", scv);
    string_of(v.as_slice())
}

/// Appends the version of a node where it is set.
fn push_version(v: &mut Vec<char>, n: &Proxy)
    ensures
        final(v)@ == old(v)@ + (if n.snell_version != 0 {
            ", version="@ + nat_decimal(n.snell_version as nat)
        } else {
            Seq::empty()
        }),
{
    if n.snell_version != 0 {
        push_str(v, ", version=");
        let d = u64_decimal(n.snell_version as u64);
        push_all(v, d.as_slice());
    }
    assert(v@ =~= old(v)@ + (if n.snell_version != 0 {
        ", version="@ + nat_decimal(n.snell_version as nat)
    } else {
        Seq::empty()
    }));
}

/// The line of a node without its general options (see [`node_body`]).
fn node_line(n: &Proxy, scv: Option<bool>, tls13: Option<bool>, surge_ver: i32, ssr_path: &str) -> (r: SurgeProxyLine)
    ensures
        r@ == node_body(*n, scv, tls13, surge_ver as int, ssr_path@),
{
    let mut v: Vec<char> = Vec::new();
    match n.proxy_type {
        ProxyType::Shadowsocks => ss_line(n, surge_ver),
        ProxyType::VMess => vmess_line(n, scv, tls13, surge_ver),
        ProxyType::ShadowsocksR => {
            if ssr_path.is_empty() || surge_ver < 2 {
                SurgeProxyLine::Skip
            } else {
                SurgeProxyLine::Elsewhere
            }
        },
        ProxyType::Socks5 => {
            push_str(&mut v, "socks5");
            push_at(&mut v, n);
            let user = txt_exec(&n.username);
            push_text(&mut v, ", username=", user.as_slice());
            let password = txt_exec(&n.password);
            push_text(&mut v, ", password=", password.as_slice());
            push_flag(&mut v, ", skip-cert-verify=", scv);
            SurgeProxyLine::Line(string_of(v.as_slice()))
        },
        ProxyType::HTTPS => {
            if surge_ver == -3 {
                SurgeProxyLine::Line(surfboard_https_line(n, scv))
            } else {
                SurgeProxyLine::Line(http_line(n, scv))
            }
        },
        ProxyType::HTTP => SurgeProxyLine::Line(http_line(n, scv)),
        ProxyType::Trojan => {
            if surge_ver < 4 && surge_ver != -3 {
                return SurgeProxyLine::Skip;
            }
            push_str(&mut v, "trojan");
            push_at(&mut v, n);
            push_str(&mut v, ", password=");
            let password = txt_exec(&n.password);
            push_all(&mut v, password.as_slice());
            push_version(&mut v, n);
            let host = txt_exec(&n.host);
            push_text(&mut v, ", sni=", host.as_slice());
            push_flag(&mut v, ", skip-cert-verify=", scv);
            SurgeProxyLine::Line(string_of(v.as_slice()))
        },
        ProxyType::Snell => {
            push_str(&mut v, "snell");
            push_at(&mut v, n);
            push_str(&mut v, ", psk=");
            let password = txt_exec(&n.password);
            push_all(&mut v, password.as_slice());
            let obfs = txt_exec(&n.obfs);
            let ghost before = v@;
            if obfs.len() > 0 {
                push_str(&mut v, ", obfs=");
                push_all(&mut v, obfs.as_slice());
                let host = txt_exec(&n.host);
                push_text(&mut v, ", obfs-host=", host.as_slice());
            }
            assert(v@ =~= before + (if txt(n.obfs).len() > 0 {
                ", obfs="@ + txt(n.obfs) + text_field(", obfs-host="@, txt(n.host))
            } else {
                Seq::empty()
            }));
            push_version(&mut v, n);
            SurgeProxyLine::Line(string_of(v.as_slice()))
        },
        ProxyType::WireGuard => {
            if surge_ver < 4 && surge_ver != -3 {
                SurgeProxyLine::Skip
            } else {
                SurgeProxyLine::Elsewhere
            }
        },
        ProxyType::Hysteria2 => {
            if surge_ver < 4 {
                return SurgeProxyLine::Skip;
            }
            push_str(&mut v, "hysteria");
            push_at(&mut v, n);
            push_str(&mut v, ", password=");
            let password = txt_exec(&n.password);
            push_all(&mut v, password.as_slice());
            let ghost before = v@;
            if n.down_speed > 0 {
                push_str(&mut v, ", download-bandwidth=");
                let d = u64_decimal(n.down_speed as u64);
                push_all(&mut v, d.as_slice());
            }
            assert(v@ =~= before + (if n.down_speed > 0 {
                ", download-bandwidth="@ + nat_decimal(n.down_speed as nat)
            } else {
                Seq::empty()
            }));
            push_flag(&mut v, ",skip-cert-verify=", scv);
            let fp = txt_exec(&n.fingerprint);
            push_text(&mut v, ",server-cert-fingerprint-sha256=", fp.as_slice());
            let sni = txt_exec(&n.sni);
            push_text(&mut v, ",sni=", sni.as_slice());
            SurgeProxyLine::Line(string_of(v.as_slice()))
        },
        _ => SurgeProxyLine::Skip,
    }
}

/// What the proxy section of the client of version `surge_ver` gets for a
/// node (see [`surge_line_of`]); `ext_*` are the defaults of the
/// conversion, `surge_ssr_path` the helper that runs ShadowsocksR nodes.
pub fn surge_proxy_line(
    node: &Proxy,
    ext_udp: Option<bool>,
    ext_tfo: Option<bool>,
    ext_scv: Option<bool>,
    ext_tls13: Option<bool>,
    surge_ver: i32,
    surge_ssr_path: &str,
) -> (r: SurgeProxyLine)
    ensures
        r@ == surge_line_of(*node, ext_udp, ext_tfo, ext_scv, ext_tls13, surge_ver as int, surge_ssr_path@),
{
    let udp = match node.udp {
        Some(b) => Some(b),
        None => ext_udp,
    };
    let tfo = match node.tcp_fast_open {
        Some(b) => Some(b),
        None => ext_tfo,
    };
    let scv = match node.allow_insecure {
        Some(b) => Some(b),
        None => ext_scv,
    };
    let tls13 = match node.tls13 {
        Some(b) => Some(b),
        None => ext_tls13,
    };
    match node_line(node, scv, tls13, surge_ver, surge_ssr_path) {
        SurgeProxyLine::Line(body) => {
            let mut v = chars_of(body.as_str());
            push_flag(&mut v, ", tfo=", tfo);
            push_flag(&mut v, ", udp-relay=", udp);
            let up = txt_exec(&node.underlying_proxy);
            push_text(&mut v, ", underlying-proxy=", up.as_slice());
            SurgeProxyLine::Line(string_of(v.as_slice()))
        },
        other => other,
    }
}

// ---------------------------------------------------------------------------
// Node list
// ---------------------------------------------------------------------------
/// The node list of a Surge or Surfboard configuration: for each node, its
/// remark (`remarks`, one per node, as the caller has made them unique),
/// ` = ` and its line, each on a line of its own. A node whose line needs
/// more than the node (see [`SurgeLineView::Elsewhere`]) takes the line the
/// caller made for it in `made`, where there is one; a node the client
/// cannot use is left out.
pub open spec fn surge_node_list_of(
    nodes: Seq<Proxy>,
    remarks: Seq<Seq<char>>,
    made: Seq<Option<Seq<char>>>,
    ext_udp: Option<bool>,
    ext_tfo: Option<bool>,
    ext_scv: Option<bool>,
    ext_tls13: Option<bool>,
    surge_ver: int,
    ssr_path: Seq<char>,
) -> Seq<char>
    decreases nodes.len(),
{
    if nodes.len() == 0 || remarks.len() != nodes.len() || made.len() != nodes.len() {
        Seq::empty()
    } else {
        surge_node_list_of(
            nodes.drop_last(),
            remarks.drop_last(),
            made.drop_last(),
            ext_udp,
            ext_tfo,
            ext_scv,
            ext_tls13,
            surge_ver,
            ssr_path,
        ) + match surge_line_of(nodes.last(), ext_udp, ext_tfo, ext_scv, ext_tls13, surge_ver, ssr_path) {
            SurgeLineView::Line(l) => remarks.last() + " = "@ + l + "\n"@,
            SurgeLineView::Elsewhere => match made.last() {
                Some(l) => remarks.last() + " = "@ + l + "\n"@,
                None => Seq::empty(),
            },
            SurgeLineView::Skip => Seq::empty(),
        }
    }
}

/// The views of optional texts.
pub open spec fn opt_views(v: Seq<Option<String>>) -> Seq<Option<Seq<char>>> {
    v.map_values(|o: Option<String>| crate::text::ov(o))
}

/// The node list of a Surge or Surfboard configuration (see
/// [`surge_node_list_of`]), what a conversion that asks only for nodes
/// gives.
pub fn surge_node_list(
    nodes: &Vec<Proxy>,
    remarks: &Vec<String>,
    made: &Vec<Option<String>>,
    ext_udp: Option<bool>,
    ext_tfo: Option<bool>,
    ext_scv: Option<bool>,
    ext_tls13: Option<bool>,
    surge_ver: i32,
    surge_ssr_path: &str,
) -> (r: String)
    requires
        remarks@.len() == nodes@.len(),
        made@.len() == nodes@.len(),
    ensures
        r@ == surge_node_list_of(
            nodes@,
            string_views(remarks@),
            opt_views(made@),
            ext_udp,
            ext_tfo,
            ext_scv,
            ext_tls13,
            surge_ver as int,
            surge_ssr_path@,
        ),
{
    let ghost rv = string_views(remarks@);
    let ghost mv = opt_views(made@);
    let mut out: Vec<char> = Vec::new();
    let mut i: usize = 0;
    assert(nodes@.take(0) =~= Seq::<Proxy>::empty());
    while i < nodes.len()
        invariant
            i <= nodes@.len(),
            remarks@.len() == nodes@.len(),
            made@.len() == nodes@.len(),
            rv == string_views(remarks@),
            mv == opt_views(made@),
            out@ == surge_node_list_of(
                nodes@.take(i as int),
                rv.take(i as int),
                mv.take(i as int),
                ext_udp,
                ext_tfo,
                ext_scv,
                ext_tls13,
                surge_ver as int,
                surge_ssr_path@,
            ),
        decreases nodes@.len() - i,
    {
        assert(nodes@.take(i + 1).drop_last() =~= nodes@.take(i as int));
        assert(rv.take(i + 1).drop_last() =~= rv.take(i as int));
        assert(mv.take(i + 1).drop_last() =~= mv.take(i as int));
        assert(nodes@.take(i + 1).last() == nodes@[i as int]);
        assert(rv.take(i + 1).last() == remarks@[i as int]@);
        assert(mv.take(i + 1).last() == crate::text::ov(made@[i as int]));
        let ghost before = out@;
        let line: Option<String> = match surge_proxy_line(
            &nodes[i],
            ext_udp,
            ext_tfo,
            ext_scv,
            ext_tls13,
            surge_ver,
            surge_ssr_path,
        ) {
            SurgeProxyLine::Line(l) => Some(l),
            SurgeProxyLine::Elsewhere => match &made[i] {
                Some(l) => Some(l.clone()),
                None => None,
            },
            SurgeProxyLine::Skip => None,
        };
        match line {
            Some(l) => {
                push_str(&mut out, remarks[i].as_str());
                push_str(&mut out, " = ");
                push_str(&mut out, l.as_str());
                push_str(&mut out, "\n");
                assert(out@ =~= before + (remarks@[i as int]@ + " = "@ + l@ + "\n"@));
            },
            None => {
                assert(out@ =~= before + Seq::<char>::empty());
            },
        }
        i = i + 1;
    }
    assert(nodes@.take(i as int) =~= nodes@);
    assert(rv.take(i as int) =~= rv);
    assert(mv.take(i as int) =~= mv);
    string_of(out.as_slice())
}

// ---------------------------------------------------------------------------
// WireGuard
// ---------------------------------------------------------------------------
/// One setting of a WireGuard section, where `present` holds.
pub open spec fn wg_setting(present: bool, key: Seq<char>, value: Seq<char>) -> Seq<(Seq<char>, Seq<char>)> {
    if present {
        seq![(key, value)]
    } else {
        Seq::empty()
    }
}

/// The settings of the WireGuard section of a node, in order: private key
/// and own address where set, own IPv6 address and preshared key where not
/// empty, DNS servers (comma-separated) where there are any, MTU and
/// keep-alive where not 0, and the peer in brackets.
pub open spec fn surge_wireguard_settings(n: Proxy) -> Seq<(Seq<char>, Seq<char>)> {
    wg_setting(n.private_key is Some, "private-key"@, txt(n.private_key)) + wg_setting(
        n.self_ip is Some,
        "self-ip"@,
        txt(n.self_ip),
    ) + wg_setting(txt(n.self_ipv6).len() > 0, "self-ip-v6"@, txt(n.self_ipv6)) + wg_setting(
        txt(n.pre_shared_key).len() > 0,
        "preshared-key"@,
        txt(n.pre_shared_key),
    ) + wg_setting(n.dns_servers@.len() > 0, "dns-server"@, join(string_views(n.dns_servers@), ","@))
        + wg_setting(n.mtu > 0, "mtu"@, nat_decimal(n.mtu as nat)) + wg_setting(
        n.keep_alive > 0,
        "keepalive"@,
        nat_decimal(n.keep_alive as nat),
    ) + seq![("peer"@, "("@ + surge_peer(n, false) + ")"@)]
}

/// The proxy line of a WireGuard node whose section is named `section`:
/// the section name, the test address where not empty, then TCP Fast
/// Open, UDP relay (the node's own or the defaults `ext_*`) and the
/// underlying proxy where set.
pub open spec fn surge_wireguard_line(n: Proxy, section: Seq<char>, ext_udp: Option<bool>, ext_tfo: Option<bool>) -> Seq<
    char,
> {
    "wireguard, section-name="@ + section + text_field(", test-url="@, txt(n.test_url)) + flag_field(
        ", tfo="@,
        defined(n.tcp_fast_open, ext_tfo),
    ) + flag_field(", udp-relay="@, defined(n.udp, ext_udp)) + text_field(
        ", underlying-proxy="@,
        txt(n.underlying_proxy),
    )
}

/// What a WireGuard node gives a Surge or Surfboard configuration: its
/// proxy line, the heading of its section, and the settings of that section.
pub struct SurgeWireGuard {
    pub line: String,
    pub section: String,
    pub settings: Vec<(String, String)>,
}

/// Appends one setting where `present` holds (see [`wg_setting`]).
fn push_setting(v: &mut Vec<(String, String)>, present: bool, key: &str, value: Vec<char>)
    ensures
        crate::text::pair_views(final(v)@) == crate::text::pair_views(old(v)@) + wg_setting(present, key@, value@),
{
    if present {
        v.push((key.to_owned(), string_of(value.as_slice())));
        assert(crate::text::pair_views(v@) =~= crate::text::pair_views(old(v)@) + seq![(key@, value@)]);
    } else {
        assert(crate::text::pair_views(v@) =~= crate::text::pair_views(old(v)@) + Seq::<(Seq<char>, Seq<char>)>::empty());
    }
}

/// What a WireGuard node gives a Surge or Surfboard configuration (see
/// [`surge_wireguard_line`] and [`surge_wireguard_settings`]); `section`
/// names its section, which is headed `WireGuard` and that name.
pub fn surge_wireguard(node: &Proxy, section: &str, ext_udp: Option<bool>, ext_tfo: Option<bool>) -> (r: SurgeWireGuard)
    ensures
        r.line@ == surge_wireguard_line(*node, section@, ext_udp, ext_tfo),
        r.section@ == "WireGuard "@ + section@,
        crate::text::pair_views(r.settings@) == surge_wireguard_settings(*node),
{
    let mut line: Vec<char> = Vec::new();
    push_str(&mut line, "wireguard, section-name=");
    push_str(&mut line, section);
    let test_url = txt_exec(&node.test_url);
    push_text(&mut line, ", test-url=", test_url.as_slice());
    let tfo = match node.tcp_fast_open {
        Some(b) => Some(b),
        None => ext_tfo,
    };
    let udp = match node.udp {
        Some(b) => Some(b),
        None => ext_udp,
    };
    push_flag(&mut line, ", tfo=", tfo);
    push_flag(&mut line, ", udp-relay=", udp);
    let up = txt_exec(&node.underlying_proxy);
    push_text(&mut line, ", underlying-proxy=", up.as_slice());
    let mut heading = chars_of("WireGuard ");
    push_str(&mut heading, section);
    let mut settings: Vec<(String, String)> = Vec::new();
    push_setting(&mut settings, node.private_key.is_some(), "private-key", txt_exec(&node.private_key));
    push_setting(&mut settings, node.self_ip.is_some(), "self-ip", txt_exec(&node.self_ip));
    let v6 = txt_exec(&node.self_ipv6);
    push_setting(&mut settings, v6.len() > 0, "self-ip-v6", v6);
    let psk = txt_exec(&node.pre_shared_key);
    push_setting(&mut settings, psk.len() > 0, "preshared-key", psk);
    let mut dns: Vec<char> = Vec::new();
    push_joined_by(&mut dns, &node.dns_servers, ",");
    assert(dns@ =~= join(string_views(node.dns_servers@), ","@));
    push_setting(&mut settings, node.dns_servers.len() > 0, "dns-server", dns);
    push_setting(&mut settings, node.mtu > 0, "mtu", u64_decimal(node.mtu as u64));
    push_setting(&mut settings, node.keep_alive > 0, "keepalive", u64_decimal(node.keep_alive as u64));
    let peer = generate_peer(node, false);
    let mut pv = chars_of("(");
    push_str(&mut pv, peer.as_str());
    push_str(&mut pv, ")");
    push_setting(&mut settings, true, "peer", pv);
    assert(crate::text::pair_views(settings@) =~= surge_wireguard_settings(*node));
    SurgeWireGuard { line: string_of(line.as_slice()), section: string_of(heading.as_slice()), settings }
}

// ---------------------------------------------------------------------------
// The whole configuration
// ---------------------------------------------------------------------------
/// The proxy-section lines that groups give (groups that are only an
/// alias of a built-in policy), in order.
pub open spec fn alias_lines(groups: Seq<SurgeGroupView>) -> Seq<Seq<char>>
    decreases groups.len(),
{
    if groups.len() == 0 {
        Seq::empty()
    } else {
        let prev = alias_lines(groups.drop_last());
        match groups.last() {
            SurgeGroupView::Proxy(l) => prev.push(l),
            _ => prev,
        }
    }
}

/// The group-section lines of groups, in order.
pub open spec fn group_section_lines(groups: Seq<SurgeGroupView>) -> Seq<Seq<char>>
    decreases groups.len(),
{
    if groups.len() == 0 {
        Seq::empty()
    } else {
        let prev = group_section_lines(groups.drop_last());
        match groups.last() {
            SurgeGroupView::Group(l) => prev.push(l),
            _ => prev,
        }
    }
}

/// The lines of a WireGuard section: each setting as `key = value`.
pub open spec fn setting_lines(settings: Seq<(Seq<char>, Seq<char>)>) -> Seq<Seq<char>> {
    settings.map_values(|kv: (Seq<char>, Seq<char>)| kv.0 + " = "@ + kv.1)
}

/// The WireGuard sections: each heading with its setting lines.
pub open spec fn wireguard_sections(wg: Seq<SurgeWireGuard>) -> Seq<(Seq<char>, Seq<Seq<char>>)> {
    wg.map_values(|w: SurgeWireGuard| (w.section@, setting_lines(crate::text::pair_views(w.settings@))))
}

/// The sections a conversion writes into a Surge base configuration
/// `base`, in order: the proxies (`DIRECT = direct`, the node entries, then
/// the aliases among the groups), the proxy groups, the rules (after those
/// of the base unless they are overwritten), and one section per WireGuard
/// node.
pub open spec fn surge_updates(
    base: IniView,
    entries: Seq<Seq<char>>,
    groups: Seq<SurgeGroupView>,
    rules: Seq<Seq<char>>,
    overwrite_original_rules: bool,
    wg: Seq<SurgeWireGuard>,
) -> Seq<(Seq<char>, Seq<Seq<char>>)> {
    seq![
        ("Proxy"@, seq!["DIRECT = direct"@] + entries + alias_lines(groups)),
        ("Proxy Group"@, group_section_lines(groups)),
        ("Rule"@, (if overwrite_original_rules {
            Seq::empty()
        } else {
            section_lines(base, "Rule"@)
        }) + rules),
    ] + wireguard_sections(wg)
}

/// A Surge or Surfboard configuration: the base configuration `base` with
/// the sections of a conversion (see [`surge_updates`]) in place; every
/// other section of the base kept as it is. `node_entries` are the node
/// lines `remark = line` (as [`surge_node_list`] writes them), `groups`
/// what [`surge_group_lines`] gives, `rules` the rule lines.
pub fn surge_config(
    base: &str,
    node_entries: &Vec<String>,
    groups: &Vec<SurgeGroupLine>,
    rules: &Vec<String>,
    overwrite_original_rules: bool,
    wireguard: &Vec<SurgeWireGuard>,
) -> (r: String)
    ensures
        r@ == ini_text_of(
            with_sections(
                ini_sections(base@),
                surge_updates(
                    ini_sections(base@),
                    string_views(node_entries@),
                    groups@.map_values(|g: SurgeGroupLine| g@),
                    string_views(rules@),
                    overwrite_original_rules,
                    wireguard@,
                ),
            ),
        ),
{
    let ghost gv = groups@.map_values(|g: SurgeGroupLine| g@);
    let mut ini = parse_ini(base);
    let ghost base_v = ini@;
    let mut proxy: Vec<String> = Vec::new();
    proxy.push("DIRECT = direct".to_owned());
    let mut i: usize = 0;
    while i < node_entries.len()
        invariant
            i <= node_entries@.len(),
            string_views(proxy@) == seq!["DIRECT = direct"@] + string_views(node_entries@).take(i as int),
        decreases node_entries@.len() - i,
    {
        let ghost b = string_views(proxy@);
        proxy.push(node_entries[i].clone());
        assert(string_views(proxy@) =~= b.push(node_entries@[i as int]@));
        assert(string_views(node_entries@).take(i + 1) =~= string_views(node_entries@).take(i as int).push(
            node_entries@[i as int]@,
        ));
        i = i + 1;
    }
    assert(string_views(node_entries@).take(i as int) =~= string_views(node_entries@));
    let ghost head = string_views(proxy@);
    let mut group_lines: Vec<String> = Vec::new();
    let mut j: usize = 0;
    assert(gv.take(0) =~= Seq::<SurgeGroupView>::empty());
    assert(head + alias_lines(gv.take(0)) =~= head);
    while j < groups.len()
        invariant
            j <= groups@.len(),
            gv == groups@.map_values(|g: SurgeGroupLine| g@),
            string_views(proxy@) == head + alias_lines(gv.take(j as int)),
            string_views(group_lines@) == group_section_lines(gv.take(j as int)),
        decreases groups@.len() - j,
    {
        assert(gv.take(j + 1).drop_last() =~= gv.take(j as int));
        assert(gv.take(j + 1).last() == groups@[j as int]@);
        let ghost bp = string_views(proxy@);
        let ghost bg = string_views(group_lines@);
        match &groups[j] {
            SurgeGroupLine::Proxy(l) => {
                proxy.push(l.clone());
                assert(string_views(proxy@) =~= bp.push(l@));
            },
            SurgeGroupLine::Group(l) => {
                group_lines.push(l.clone());
                assert(string_views(group_lines@) =~= bg.push(l@));
            },
            SurgeGroupLine::Skip => {},
        }
        j = j + 1;
    }
    assert(gv.take(j as int) =~= gv);
    let mut rule_lines: Vec<String> = if overwrite_original_rules {
        Vec::new()
    } else {
        ini.get_section("Rule")
    };
    let ghost rhead = string_views(rule_lines@);
    assert(rhead =~= (if overwrite_original_rules {
        Seq::empty()
    } else {
        section_lines(base_v, "Rule"@)
    }));
    let mut k: usize = 0;
    while k < rules.len()
        invariant
            k <= rules@.len(),
            string_views(rule_lines@) == rhead + string_views(rules@).take(k as int),
        decreases rules@.len() - k,
    {
        let ghost b = string_views(rule_lines@);
        rule_lines.push(rules[k].clone());
        assert(string_views(rule_lines@) =~= b.push(rules@[k as int]@));
        assert(string_views(rules@).take(k + 1) =~= string_views(rules@).take(k as int).push(rules@[k as int]@));
        k = k + 1;
    }
    assert(string_views(rules@).take(k as int) =~= string_views(rules@));
    let ghost updates = surge_updates(
        base_v,
        string_views(node_entries@),
        gv,
        string_views(rules@),
        overwrite_original_rules,
        wireguard@,
    );
    assert(updates[0] == ("Proxy"@, string_views(proxy@)));
    assert(updates[1] == ("Proxy Group"@, string_views(group_lines@)));
    assert(updates[2] == ("Rule"@, string_views(rule_lines@)));
    ini.set_section("Proxy", proxy);
    let ghost v1 = ini@;
    ini.set_section("Proxy Group", group_lines);
    let ghost v2 = ini@;
    ini.set_section("Rule", rule_lines);
    proof {
        let t1 = updates.take(1);
        let t2 = updates.take(2);
        let t3 = updates.take(3);
        assert(t1.drop_last() =~= Seq::<(Seq<char>, Seq<Seq<char>>)>::empty());
        assert(t1.last() == updates[0]);
        assert(with_sections(base_v, t1.drop_last()) == base_v);
        assert(with_sections(base_v, t1) == v1);
        assert(t2.drop_last() =~= t1);
        assert(t2.last() == updates[1]);
        assert(with_sections(base_v, t2) == v2);
        assert(t3.drop_last() =~= t2);
        assert(t3.last() == updates[2]);
    }
    assert(ini@ == with_sections(base_v, updates.take(3)));
    let mut w: usize = 0;
    while w < wireguard.len()
        invariant
            w <= wireguard@.len(),
            updates.len() == 3 + wireguard@.len(),
            updates == surge_updates(
                base_v,
                string_views(node_entries@),
                gv,
                string_views(rules@),
                overwrite_original_rules,
                wireguard@,
            ),
            ini@ == with_sections(base_v, updates.take(3 + w)),
        decreases wireguard@.len() - w,
    {
        let sec = &wireguard[w];
        let ghost sv = crate::text::pair_views(sec.settings@);
        let mut lines: Vec<String> = Vec::new();
        let mut m: usize = 0;
        while m < sec.settings.len()
            invariant
                m <= sec.settings@.len(),
                sv == crate::text::pair_views(sec.settings@),
                string_views(lines@) == setting_lines(sv.take(m as int)),
            decreases sec.settings@.len() - m,
        {
            let ghost b = string_views(lines@);
            let mut v = chars_of(sec.settings[m].0.as_str());
            push_str(&mut v, " = ");
            push_str(&mut v, sec.settings[m].1.as_str());
            let line = string_of(v.as_slice());
            lines.push(line);
            assert(string_views(lines@) =~= b.push(sv[m as int].0 + " = "@ + sv[m as int].1));
            assert(setting_lines(sv.take(m + 1)) =~= setting_lines(sv.take(m as int)).push(
                sv[m as int].0 + " = "@ + sv[m as int].1,
            ));
            m = m + 1;
        }
        assert(sv.take(m as int) =~= sv);
        ini.set_section(sec.section.as_str(), lines);
        assert(updates.take(3 + w + 1).drop_last() =~= updates.take(3 + w));
        assert(updates.take(3 + w + 1).last() == updates[3 + w]);
        assert(updates[3 + w] == (sec.section@, setting_lines(sv)));
        w = w + 1;
    }
    assert(updates.take(3 + w) =~= updates);
    ini_text(&ini)
}

/// Whether the configuration runs a node through the external ShadowsocksR
/// program (a ShadowsocksR node, where there is a program and the client
/// is Surge 2 or later).
pub open spec fn runs_ssr(n: Proxy, surge_ver: int, ssr_path: Seq<char>) -> bool {
    n.proxy_type == ProxyType::ShadowsocksR && ssr_path.len() > 0 && surge_ver >= 2
}

/// How many of `nodes` run through the external ShadowsocksR program.
pub open spec fn ssr_count(nodes: Seq<Proxy>, surge_ver: int, ssr_path: Seq<char>) -> nat
    decreases nodes.len(),
{
    if nodes.len() == 0 {
        0
    } else {
        ssr_count(nodes.drop_last(), surge_ver, ssr_path) + if runs_ssr(nodes.last(), surge_ver, ssr_path) {
            1nat
        } else {
            0nat
        }
    }
}

/// The local port of each node for the external ShadowsocksR program:
/// 1080 for the first node that runs through it, one more for each later
/// one (the port of a node is 1080 and the number of such nodes before it).
pub fn ssr_local_ports(nodes: &Vec<Proxy>, surge_ver: i32, surge_ssr_path: &str) -> (r: Vec<u32>)
    requires
        nodes@.len() + 1080 <= u32::MAX,
    ensures
        r@.len() == nodes@.len(),
        forall|i: int|
            0 <= i < nodes@.len() ==> #[trigger] r@[i] == 1080 + ssr_count(
                nodes@.take(i),
                surge_ver as int,
                surge_ssr_path@,
            ),
{
    let mut r: Vec<u32> = Vec::new();
    let mut port: u32 = 1080;
    let mut i: usize = 0;
    assert(nodes@.take(0) =~= Seq::<Proxy>::empty());
    while i < nodes.len()
        invariant
            i <= nodes@.len(),
            nodes@.len() + 1080 <= u32::MAX,
            r@.len() == i,
            port == 1080 + ssr_count(nodes@.take(i as int), surge_ver as int, surge_ssr_path@),
            ssr_count(nodes@.take(i as int), surge_ver as int, surge_ssr_path@) <= i,
            forall|k: int|
                0 <= k < i ==> #[trigger] r@[k] == 1080 + ssr_count(
                    nodes@.take(k),
                    surge_ver as int,
                    surge_ssr_path@,
                ),
        decreases nodes@.len() - i,
    {
        assert(nodes@.take(i + 1).drop_last() =~= nodes@.take(i as int));
        assert(nodes@.take(i + 1).last() == nodes@[i as int]);
        r.push(port);
        let n = &nodes[i];
        let runs = match n.proxy_type {
            ProxyType::ShadowsocksR => !surge_ssr_path.is_empty() && surge_ver >= 2,
            _ => false,
        };
        if runs {
            port = port + 1;
        }
        i = i + 1;
    }
    r
}

// ---------------------------------------------------------------------------
// ShadowsocksR through an external program
// ---------------------------------------------------------------------------
/// The arguments of the external ShadowsocksR program for a node listening
/// on `local_port`: listen port, server, port, cipher, password,
/// obfuscation and protocol, then the obfuscation and protocol parameters
/// where set.
pub open spec fn ssr_args(n: Proxy, local_port: u32) -> Seq<Seq<char>> {
    seq![
        "-l"@,
        nat_decimal(local_port as nat),
        "-s"@,
        n.hostname@,
        "-p"@,
        nat_decimal(n.port as nat),
        "-m"@,
        txt(n.encrypt_method),
        "-k"@,
        txt(n.password),
        "-o"@,
        txt(n.obfs),
        "-O"@,
        txt(n.protocol),
    ] + (if txt(n.obfs_param).len() > 0 {
        seq!["-g"@, txt(n.obfs_param)]
    } else {
        Seq::empty()
    }) + (if txt(n.protocol_param).len() > 0 {
        seq!["-G"@, txt(n.protocol_param)]
    } else {
        Seq::empty()
    })
}

/// The proxy line of a ShadowsocksR node that Surge runs through the
/// program at `ssr_path` on `local_port`: the program and its arguments,
/// the local port, the server's address where known (`address`: the host
/// itself where it is an IP address, or what it resolved to), then TCP Fast
/// Open, UDP relay and underlying proxy where set.
pub open spec fn surge_ssr_text(
    n: Proxy,
    ext_udp: Option<bool>,
    ext_tfo: Option<bool>,
    ssr_path: Seq<char>,
    local_port: u32,
    address: Option<Seq<char>>,
) -> Seq<char> {
    "external, exec=\""@ + ssr_path + "\", args=\""@ + join(ssr_args(n, local_port), "\", args=\""@)
        + "\", local-port="@ + nat_decimal(local_port as nat) + (match address {
        Some(a) => ", addresses="@ + a,
        None => Seq::empty(),
    }) + flag_field(", tfo="@, defined(n.tcp_fast_open, ext_tfo)) + flag_field(
        ", udp-relay="@,
        defined(n.udp, ext_udp),
    ) + text_field(", underlying-proxy="@, txt(n.underlying_proxy))
}

/// The proxy line of a ShadowsocksR node run through an external program
/// (see [`surge_ssr_text`]).
pub fn surge_ssr_line(
    node: &Proxy,
    ext_udp: Option<bool>,
    ext_tfo: Option<bool>,
    surge_ssr_path: &str,
    local_port: u32,
    address: Option<&str>,
) -> (r: String)
    ensures
        r@ == surge_ssr_text(
            *node,
            ext_udp,
            ext_tfo,
            surge_ssr_path@,
            local_port,
            match address {
                Some(a) => Some(a@),
                None => None,
            },
        ),
{
    let mut args: Vec<String> = Vec::new();
    let lp = u64_decimal(local_port as u64);
    let port = u64_decimal(node.port as u64);
    args.push("-l".to_owned());
    args.push(string_of(lp.as_slice()));
    args.push("-s".to_owned());
    args.push(node.hostname.clone());
    args.push("-p".to_owned());
    args.push(string_of(port.as_slice()));
    args.push("-m".to_owned());
    args.push(string_of(txt_exec(&node.encrypt_method).as_slice()));
    args.push("-k".to_owned());
    args.push(string_of(txt_exec(&node.password).as_slice()));
    args.push("-o".to_owned());
    args.push(string_of(txt_exec(&node.obfs).as_slice()));
    args.push("-O".to_owned());
    args.push(string_of(txt_exec(&node.protocol).as_slice()));
    let op = txt_exec(&node.obfs_param);
    if op.len() > 0 {
        args.push("-g".to_owned());
        args.push(string_of(op.as_slice()));
    }
    let pp = txt_exec(&node.protocol_param);
    if pp.len() > 0 {
        args.push("-G".to_owned());
        args.push(string_of(pp.as_slice()));
    }
    assert(string_views(args@) =~= ssr_args(*node, local_port));
    let mut v = chars_of("external, exec=\"");
    push_str(&mut v, surge_ssr_path);
    push_str(&mut v, "\", args=\"");
    push_joined_by(&mut v, &args, "\", args=\"");
    push_str(&mut v, "\", local-port=");
    push_all(&mut v, lp.as_slice());
    let ghost a0 = v@;
    match address {
        Some(a) => {
            push_str(&mut v, ", addresses=");
            push_str(&mut v, a);
        },
        None => {},
    }
    assert(v@ =~= a0 + match address {
        Some(a) => ", addresses="@ + a@,
        None => Seq::<char>::empty(),
    });
    let tfo = match node.tcp_fast_open {
        Some(b) => Some(b),
        None => ext_tfo,
    };
    let udp = match node.udp {
        Some(b) => Some(b),
        None => ext_udp,
    };
    push_flag(&mut v, ", tfo=", tfo);
    push_flag(&mut v, ", udp-relay=", udp);
    let up = txt_exec(&node.underlying_proxy);
    push_text(&mut v, ", underlying-proxy=", up.as_slice());
    let r = string_of(v.as_slice());
    assert(r@ =~= surge_ssr_text(
        *node,
        ext_udp,
        ext_tfo,
        surge_ssr_path@,
        local_port,
        match address {
            Some(a) => Some(a@),
            None => None,
        },
    ));
    r
}

/// Appends the items joined by `sep` (see [`join`]).
pub(crate) fn push_joined_by(v: &mut Vec<char>, items: &Vec<String>, sep: &str)
    ensures
        final(v)@ == old(v)@ + join(string_views(items@), sep@),
{
    let ghost iv = string_views(items@);
    let mut i: usize = 0;
    assert(iv.take(0) =~= Seq::<Seq<char>>::empty());
    while i < items.len()
        invariant
            i <= items@.len(),
            iv == string_views(items@),
            v@ == old(v)@ + join(iv.take(i as int), sep@),
        decreases items@.len() - i,
    {
        assert(iv.take(i + 1).drop_last() =~= iv.take(i as int));
        if i > 0 {
            push_str(v, sep);
        }
        push_str(v, items[i].as_str());
        i = i + 1;
        assert(v@ =~= old(v)@ + join(iv.take(i as int), sep@));
    }
    assert(iv.take(i as int) =~= iv);
}

// ---------------------------------------------------------------------------
// Proxy group lines
// ---------------------------------------------------------------------------
/// Where a group of a Surge configuration goes.
pub enum SurgeGroupView {
    /// This line in the proxy group section.
    Group(Seq<char>),
    /// This line in the proxy section: a group that is only an alias of a
    /// built-in policy.
    Proxy(Seq<char>),
    /// Nowhere: the client has no such group.
    Skip,
}

/// Where a group of a Surge configuration goes (see [`SurgeGroupView`]).
#[derive(Debug, Clone)]
pub enum SurgeGroupLine {
    Group(String),
    Proxy(String),
    Skip,
}

impl View for SurgeGroupLine {
    type V = SurgeGroupView;

    open spec fn view(&self) -> SurgeGroupView {
        match self {
            SurgeGroupLine::Group(s) => SurgeGroupView::Group(s@),
            SurgeGroupLine::Proxy(s) => SurgeGroupView::Proxy(s@),
            SurgeGroupLine::Skip => SurgeGroupView::Skip,
        }
    }
}

/// The test settings of a latency-testing, fallback or load-balancing group.
pub open spec fn surge_test_fields(g: ProxyGroupConfig) -> Seq<char> {
    let t = g.group_type;
    if t == ProxyGroupType::URLTest || t == ProxyGroupType::Fallback || t == ProxyGroupType::LoadBalance {
        ",url="@ + g.url@ + ",interval="@ + nat_decimal(g.interval as nat) + (if g.tolerance > 0 {
            ",tolerance="@ + nat_decimal(g.tolerance as nat)
        } else {
            Seq::empty()
        }) + (if g.timeout > 0 {
            ",timeout="@ + nat_decimal(g.timeout as nat)
        } else {
            Seq::empty()
        }) + (if g.persistent {
            ",persistent=true"@
        } else {
            Seq::empty()
        }) + if g.evaluate_before_use {
            ",evaluate-before-use=true"@
        } else {
            Seq::empty()
        }
    } else {
        Seq::empty()
    }
}

/// Whether the client of version `surge_ver` has groups of kind `t` that
/// list nodes (SSID groups aside).
pub open spec fn surge_has_group(t: ProxyGroupType, surge_ver: int) -> bool {
    ||| t == ProxyGroupType::Select
    ||| t == ProxyGroupType::Smart
    ||| t == ProxyGroupType::URLTest
    ||| t == ProxyGroupType::Fallback
    ||| (t == ProxyGroupType::LoadBalance && !(surge_ver < 1 && surge_ver != -3))
}

/// Where the group `g` goes in a configuration for the client of version
/// `surge_ver`, with the node names `filtered` chosen for it: an SSID group
/// names its first entry as default; a group of a kind the client has lists
/// its nodes (`DIRECT` where there are none) and its test settings, but a
/// group of one node that is `DIRECT`, `REJECT` or `REJECT-TINYGIF` in any
/// case is that policy, written in lower case, in the proxy section.
pub open spec fn surge_group_line_of(g: ProxyGroupConfig, filtered: Seq<Seq<char>>, surge_ver: int) -> SurgeGroupView {
    let t = g.group_type;
    let names = string_views(g.proxies@);
    if t == ProxyGroupType::SSID {
        SurgeGroupView::Group(
            g.name@ + " = "@ + group_type_name(t) + ",default="@ + names[0] + ","@ + join(names.skip(1), ","@),
        )
    } else if !surge_has_group(t, surge_ver) {
        SurgeGroupView::Skip
    } else {
        let nodes = if filtered.len() == 0 {
            seq!["DIRECT"@]
        } else {
            filtered
        };
        let low = std_lowercase(nodes[0]);
        if nodes.len() == 1 && (low == "direct"@ || low == "reject"@ || low == "reject-tinygif"@) {
            SurgeGroupView::Proxy(g.name@ + " = "@ + low)
        } else {
            SurgeGroupView::Group(g.name@ + " = "@ + group_type_name(t) + ","@ + join(nodes, ","@) + surge_test_fields(g))
        }
    }
}

/// Appends `key` and the number where the number is not zero.
fn push_positive(v: &mut Vec<char>, key: &str, n: u32)
    ensures
        final(v)@ == old(v)@ + (if n > 0 {
            key@ + nat_decimal(n as nat)
        } else {
            Seq::empty()
        }),
{
    if n > 0 {
        push_str(v, key);
        push_number(v, n);
    }
    assert(v@ =~= old(v)@ + (if n > 0 {
        key@ + nat_decimal(n as nat)
    } else {
        Seq::empty()
    }));
}

/// Appends `text` where `cond` holds.
fn push_when(v: &mut Vec<char>, cond: bool, text: &str)
    ensures
        final(v)@ == old(v)@ + (if cond {
            text@
        } else {
            Seq::empty()
        }),
{
    if cond {
        push_str(v, text);
    }
    assert(v@ =~= old(v)@ + (if cond {
        text@
    } else {
        Seq::empty()
    }));
}

/// Appends the test settings of a group (see [`surge_test_fields`]).
#[verifier::rlimit(50)]
fn push_surge_test_fields(v: &mut Vec<char>, g: &ProxyGroupConfig)
    ensures
        final(v)@ == old(v)@ + surge_test_fields(*g),
{
    let t = g.group_type;
    if t == ProxyGroupType::URLTest || t == ProxyGroupType::Fallback || t == ProxyGroupType::LoadBalance {
        push_str(v, ",url=");
        push_str(v, g.url.as_str());
        push_str(v, ",interval=");
        push_number(v, g.interval);
        push_positive(v, ",tolerance=", g.tolerance);
        push_positive(v, ",timeout=", g.timeout);
        push_when(v, g.persistent, ",persistent=true");
        push_when(v, g.evaluate_before_use, ",evaluate-before-use=true");
    }
    assert(v@ =~= old(v)@ + surge_test_fields(*g));
}

/// Where a group goes in a Surge configuration (see [`surge_group_line_of`]).
/// An SSID group must have at least one entry.
pub fn surge_group_line(group: &ProxyGroupConfig, filtered: &[String], surge_ver: i32) -> (r: SurgeGroupLine)
    requires
        group.group_type == ProxyGroupType::SSID ==> group.proxies@.len() >= 1,
    ensures
        r@ == surge_group_line_of(*group, string_views(filtered@), surge_ver as int),
{
    let t = group.group_type;
    let mut v: Vec<char> = Vec::new();
    if t == ProxyGroupType::SSID {
        push_str(&mut v, group.name.as_str());
        push_str(&mut v, " = ");
        push_str(&mut v, group.type_str());
        push_str(&mut v, ",default=");
        push_str(&mut v, group.proxies[0].as_str());
        push_str(&mut v, ",");
        push_joined(&mut v, group.proxies.as_slice(), 1);
        assert(v@ =~= group.name@ + " = "@ + group_type_name(t) + ",default="@ + string_views(
            group.proxies@,
        )[0] + ","@ + join(string_views(group.proxies@).skip(1), ","@));
        return SurgeGroupLine::Group(string_of(v.as_slice()));
    }
    let supported = t == ProxyGroupType::Select || t == ProxyGroupType::Smart || t == ProxyGroupType::URLTest
        || t == ProxyGroupType::Fallback || (t == ProxyGroupType::LoadBalance && !(surge_ver < 1
        && surge_ver != -3));
    if !supported {
        return SurgeGroupLine::Skip;
    }
    let direct = vec!["DIRECT".to_owned()];
    let nodes: &[String] = if filtered.len() == 0 {
        direct.as_slice()
    } else {
        filtered
    };
    assert(string_views(direct@) =~= seq!["DIRECT"@]);
    let ghost nv = if filtered@.len() == 0 {
        seq!["DIRECT"@]
    } else {
        string_views(filtered@)
    };
    assert(string_views(nodes@) == nv);
    assert(string_views(nodes@).skip(0) =~= nv);
    let low = to_lowercase_str(nodes[0].as_str());
    let lc = chars_of(low.as_str());
    if nodes.len() == 1 && (eq_str(lc.as_slice(), "direct") || eq_str(lc.as_slice(), "reject") || eq_str(
        lc.as_slice(),
        "reject-tinygif",
    )) {
        push_str(&mut v, group.name.as_str());
        push_str(&mut v, " = ");
        push_all(&mut v, lc.as_slice());
        return SurgeGroupLine::Proxy(string_of(v.as_slice()));
    }
    push_str(&mut v, group.name.as_str());
    push_str(&mut v, " = ");
    push_str(&mut v, group.type_str());
    push_str(&mut v, ",");
    push_joined(&mut v, nodes, 0);
    push_surge_test_fields(&mut v, group);
    SurgeGroupLine::Group(string_of(v.as_slice()))
}

/// Where each group goes in a Surge configuration for the client of
/// version `surge_ver` (see [`surge_group_line_of`]): a group of a kind the
/// client lists nodes of has the members its rules give it among `nodes`,
/// direct entries included.
pub open spec fn surge_group_lines_of(
    groups: Seq<ProxyGroupConfig>,
    nodes: Seq<Proxy>,
    surge_ver: int,
    authorized: bool,
) -> Seq<SurgeGroupView> {
    Seq::new(
        groups.len(),
        |i: int| surge_group_line_of(groups[i], rule_members(groups[i], nodes, true, authorized), surge_ver),
    )
}

/// Where each group goes in a Surge configuration (see
/// [`surge_group_lines_of`]). The rules of each group whose nodes are
/// listed must fit the nodes, and an SSID group must have an entry.
pub fn surge_group_lines(groups: &Vec<ProxyGroupConfig>, nodes: &[Proxy], surge_ver: i32, ext: &ExtraSettings) -> (r:
    Vec<SurgeGroupLine>)
    requires
        forall|i: int|
            0 <= i < groups@.len() ==> (#[trigger] groups@[i]).group_type == ProxyGroupType::SSID
                ==> groups@[i].proxies@.len() >= 1,
        forall|i: int|
            0 <= i < groups@.len() && surge_has_group((#[trigger] groups@[i]).group_type, surge_ver as int)
                ==> group_fits(groups@[i], nodes@),
    ensures
        r@.len() == groups@.len(),
        forall|i: int|
            0 <= i < groups@.len() ==> (#[trigger] r@[i])@ == surge_group_lines_of(
                groups@,
                nodes@,
                surge_ver as int,
                ext.authorized,
            )[i],
{
    let mut r: Vec<SurgeGroupLine> = Vec::new();
    let mut i: usize = 0;
    while i < groups.len()
        invariant
            i <= groups@.len(),
            r@.len() == i,
            forall|k: int|
                0 <= k < groups@.len() ==> (#[trigger] groups@[k]).group_type == ProxyGroupType::SSID
                    ==> groups@[k].proxies@.len() >= 1,
            forall|k: int|
                0 <= k < groups@.len() && surge_has_group((#[trigger] groups@[k]).group_type, surge_ver as int)
                    ==> group_fits(groups@[k], nodes@),
            forall|k: int|
                0 <= k < i ==> (#[trigger] r@[k])@ == surge_group_lines_of(
                    groups@,
                    nodes@,
                    surge_ver as int,
                    ext.authorized,
                )[k],
        decreases groups@.len() - i,
    {
        let g = &groups[i];
        let t = g.group_type;
        let listed = t == ProxyGroupType::Select || t == ProxyGroupType::Smart || t == ProxyGroupType::URLTest
            || t == ProxyGroupType::Fallback || (t == ProxyGroupType::LoadBalance && !(surge_ver < 1
            && surge_ver != -3));
        let line = if listed {
            let members = group_rule_members(g, nodes, true, ext);
            surge_group_line(g, members.as_slice(), surge_ver)
        } else {
            let none: Vec<String> = Vec::new();
            surge_group_line(g, none.as_slice(), surge_ver)
        };
        assert(line@ == surge_group_lines_of(groups@, nodes@, surge_ver as int, ext.authorized)[i as int]);
        r.push(line);
        i = i + 1;
    }
    r
}


/// A SOCKS5 node always gets a Surge line, and that line carries the node's
/// user name after `, username=` and its password after `, password=`,
/// wherever they are not empty.
pub proof fn law_surge_socks5_keeps_credentials(
    n: Proxy,
    ext_udp: Option<bool>,
    ext_tfo: Option<bool>,
    ext_scv: Option<bool>,
    ext_tls13: Option<bool>,
    surge_ver: int,
    ssr_path: Seq<char>,
)
    requires
        n.proxy_type == ProxyType::Socks5,
    ensures
        surge_line_of(n, ext_udp, ext_tfo, ext_scv, ext_tls13, surge_ver, ssr_path) matches SurgeLineView::Line(l)
            && has_prefix(l, "socks5, "@ + n.hostname@ + ", "@ + nat_decimal(n.port as nat))
            && (txt(n.username).len() > 0 ==> contains_seq(l, ", username="@ + txt(n.username)))
            && (txt(n.password).len() > 0 ==> contains_seq(l, ", password="@ + txt(n.password))),
{
    let scv = defined(n.allow_insecure, ext_scv);
    let user = text_field(", username="@, txt(n.username));
    let pass = text_field(", password="@, txt(n.password));
    let tail = flag_field(", skip-cert-verify="@, scv);
    let rest = flag_field(", tfo="@, defined(n.tcp_fast_open, ext_tfo)) + flag_field(
        ", udp-relay="@,
        defined(n.udp, ext_udp),
    ) + text_field(", underlying-proxy="@, txt(n.underlying_proxy));
    let head = "socks5"@ + at(n);
    let l = head + user + pass + tail + rest;
    assert(node_body(n, scv, defined(n.tls13, ext_tls13), surge_ver, ssr_path) == SurgeLineView::Line(
        head + user + pass + tail,
    ));
    assert(head + user + pass + tail + flag_field(", tfo="@, defined(n.tcp_fast_open, ext_tfo)) + flag_field(
        ", udp-relay="@,
        defined(n.udp, ext_udp),
    ) + text_field(", underlying-proxy="@, txt(n.underlying_proxy)) =~= l);
    assert(surge_line_of(n, ext_udp, ext_tfo, ext_scv, ext_tls13, surge_ver, ssr_path) == SurgeLineView::Line(l));
    reveal_strlit("socks5");
    reveal_strlit("socks5, ");
    reveal_strlit(", ");
    let lead = "socks5, "@ + n.hostname@ + ", "@ + nat_decimal(n.port as nat);
    assert(head =~= lead);
    assert(l.take(lead.len() as int) =~= lead);
    if txt(n.username).len() > 0 {
        assert(l =~= head + user + (pass + tail + rest));
        lemma_contains_middle(head, user, pass + tail + rest);
    }
    if txt(n.password).len() > 0 {
        assert(l =~= (head + user) + pass + (tail + rest));
        lemma_contains_middle(head + user, pass, tail + rest);
    }
}

} // verus!

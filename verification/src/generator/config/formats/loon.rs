//! The Loon client format.
use super::surge::{flag_field, tf, txt};
use crate::generator::config::group::{group_fits, group_rule_members, rule_members};
use crate::models::extra_settings::ExtraSettings;
use crate::models::proxy::{Proxy, ProxyType};
use crate::models::proxy_group_config::{BalanceStrategy, ProxyGroupConfig, ProxyGroupType, group_type_name};
use crate::text::{
    chars_of, contains_char, eq_str, nat_decimal, ov, push_all, push_str, replace_all, replace_all_exec,
    string_of, string_views, u64_decimal,
};
use crate::utils::ini::{client_config, client_updates, ini_sections, ini_text_of, with_sections};
use crate::text::{contains_seq, has_prefix, lemma_contains_middle};
use vstd::prelude::*;

verus! {

/// The peer line of a WireGuard node in the Loon format: public key,
/// endpoint (always after a comma), allowed IPs and client id, each only where the node has it;
/// the client id is written as `reserved` when `reserved` holds.
pub open spec fn loon_peer(node: Proxy, reserved: bool) -> Seq<char> {
    let key = match node.public_key {
        Some(k) => "public-key="@ + k@,
        None => Seq::<char>::empty(),
    };
    let ips = if node.allowed_ips@.len() > 0 {
        ", allowed-ips="@ + node.allowed_ips@
    } else {
        Seq::<char>::empty()
    };
    let id = match node.client_id {
        Some(c) => if c@.len() > 0 {
            (if reserved {
                ", reserved="@
            } else {
                ", client-id="@
            }) + c@
        } else {
            Seq::<char>::empty()
        },
        None => Seq::<char>::empty(),
    };
    key + ", endpoint="@ + node.hostname@ + ":"@ + nat_decimal(node.port as nat) + ips + id
}

/// The peer line of a WireGuard node for Loon (see [`loon_peer`]).
pub fn generate_peer(node: &Proxy, client_id_as_reserved: bool) -> (r: String)
    ensures
        r@ == loon_peer(*node, client_id_as_reserved),
{
    let mut peer: Vec<char> = Vec::new();
    if let Some(public_key) = &node.public_key {
        push_str(&mut peer, "public-key=");
        push_str(&mut peer, public_key.as_str());
    }
    push_str(&mut peer, ", endpoint=");
    push_str(&mut peer, node.hostname.as_str());
    push_str(&mut peer, ":");
    let port = u64_decimal(node.port as u64);
    push_all(&mut peer, port.as_slice());
    if !node.allowed_ips.as_str().is_empty() {
        push_str(&mut peer, ", allowed-ips=");
        push_str(&mut peer, node.allowed_ips.as_str());
    }
    if let Some(client_id) = &node.client_id {
        if !client_id.as_str().is_empty() {
            if client_id_as_reserved {
                push_str(&mut peer, ", reserved=");
            } else {
                push_str(&mut peer, ", client-id=");
            }
            push_str(&mut peer, client_id.as_str());
        }
    }
    let r = string_of(peer.as_slice());
    assert(r@ =~= loon_peer(*node, client_id_as_reserved));
    r
}

// ---------------------------------------------------------------------------
// Proxy lines
// ---------------------------------------------------------------------------
/// Server and port, each after a comma.
pub open spec fn loon_at(n: Proxy) -> Seq<char> {
    ","@ + n.hostname@ + ","@ + nat_decimal(n.port as nat)
}

/// A text in double quotes.
pub open spec fn quoted(s: Seq<char>) -> Seq<char> {
    "\""@ + s + "\""@
}

/// The DNS settings of a WireGuard node: an address with a dot is IPv4, one
/// with a colon IPv6, any other is left out.
pub open spec fn dns_fields(servers: Seq<Seq<char>>) -> Seq<char>
    decreases servers.len(),
{
    if servers.len() == 0 {
        Seq::empty()
    } else {
        let s = servers.last();
        dns_fields(servers.drop_last()) + if s.contains('.') {
            ", dns="@ + s
        } else if s.contains(':') {
            ", dnsv6="@ + s
        } else {
            Seq::empty()
        }
    }
}

/// The line of a node in a Loon configuration without its general options;
/// `None` for a node Loon cannot use.
pub open spec fn loon_body(n: Proxy, scv: Option<bool>) -> Option<Seq<char>> {
    let host = txt(n.host);
    let user = txt(n.username);
    let password = txt(n.password);
    match n.proxy_type {
        ProxyType::Shadowsocks => {
            let head = "Shadowsocks"@ + loon_at(n) + ","@ + txt(n.encrypt_method) + ","@ + quoted(password);
            let plugin = txt(n.plugin);
            let opts = txt(n.plugin_option);
            if plugin == "simple-obfs"@ || plugin == "obfs-local"@ {
                Some(
                    head + if opts.len() > 0 {
                        ","@ + replace_all(replace_all(opts, ";obfs-host="@, ","@), "obfs="@, Seq::empty())
                    } else {
                        Seq::empty()
                    },
                )
            } else if plugin.len() > 0 {
                None
            } else {
                Some(head)
            }
        },
        ProxyType::VMess => {
            let method = if txt(n.encrypt_method) == "auto"@ {
                "chacha20-ietf-poly1305"@
            } else {
                txt(n.encrypt_method)
            };
            let head = "vmess"@ + loon_at(n) + ","@ + method + ","@ + quoted(txt(n.user_id)) + ",over-tls="@
                + tf(n.tls_secure) + if n.tls_secure {
                ",tls-name="@ + host
            } else {
                Seq::empty()
            };
            let proto = txt(n.transfer_protocol);
            if proto == "tcp"@ {
                Some(head + ",transport=tcp"@ + flag_field(",skip-cert-verify="@, scv))
            } else if proto == "ws"@ {
                Some(
                    head + ",transport=ws,path="@ + txt(n.path) + ",host="@ + host + flag_field(
                        ",skip-cert-verify="@,
                        scv,
                    ),
                )
            } else {
                None
            }
        },
        ProxyType::ShadowsocksR => Some(
            "ShadowsocksR"@ + loon_at(n) + ","@ + txt(n.encrypt_method) + ","@ + quoted(password)
                + ",protocol="@ + txt(n.protocol) + ",protocol-param="@ + txt(n.protocol_param)
                + ",obfs="@ + txt(n.obfs) + ",obfs-param="@ + txt(n.obfs_param),
        ),
        ProxyType::HTTP => Some("http"@ + loon_at(n) + credentials(user, password)),
        ProxyType::HTTPS => Some(
            "https"@ + loon_at(n) + credentials(user, password) + (if host.len() > 0 {
                ",tls-name="@ + host
            } else {
                Seq::empty()
            }) + flag_field(",skip-cert-verify="@, scv),
        ),
        ProxyType::Trojan => Some(
            "trojan"@ + loon_at(n) + ","@ + quoted(password) + (if host.len() > 0 {
                ",tls-name="@ + host
            } else {
                Seq::empty()
            }) + flag_field(",skip-cert-verify="@, scv),
        ),
        ProxyType::Socks5 => Some(
            "socks5"@ + loon_at(n) + (if user.len() > 0 && password.len() > 0 {
                ","@ + user + ","@ + quoted(password)
            } else {
                Seq::empty()
            }) + ",over-tls="@ + tf(n.tls_secure) + if n.tls_secure {
                (if host.len() > 0 {
                    ",tls-name="@ + host
                } else {
                    Seq::empty()
                }) + flag_field(",skip-cert-verify="@, scv)
            } else {
                Seq::empty()
            },
        ),
        ProxyType::WireGuard => Some(
            "wireguard, interface-ip="@ + txt(n.self_ip) + (if txt(n.self_ipv6).len() > 0 {
                ", interface-ipv6="@ + txt(n.self_ipv6)
            } else {
                Seq::empty()
            }) + (match n.private_key {
                Some(k) => ", private-key="@ + k@,
                None => Seq::empty(),
            }) + dns_fields(string_views(n.dns_servers@)) + (if n.mtu > 0 {
                ", mtu="@ + nat_decimal(n.mtu as nat)
            } else {
                Seq::empty()
            }) + (if n.keep_alive > 0 {
                ", keepalive="@ + nat_decimal(n.keep_alive as nat)
            } else {
                Seq::empty()
            }) + ", peers=[{"@ + loon_peer(n, true) + "}]"@,
        ),
        _ => None,
    }
}

/// User name and, after it, quoted password, where a user name is set.
pub open spec fn credentials(user: Seq<char>, password: Seq<char>) -> Seq<char> {
    if user.len() > 0 {
        ","@ + user + if password.len() > 0 {
            ","@ + quoted(password)
        } else {
            Seq::empty()
        }
    } else {
        Seq::empty()
    }
}

/// The line of a node in a Loon configuration, `None` where Loon cannot use
/// it: the line of its protocol, then `fast-open` and `udp` where the
/// conversion turns them on. The node's certificate check setting takes the
/// default `ext_scv` where it has none.
pub open spec fn loon_line_of(n: Proxy, ext_udp: Option<bool>, ext_tfo: Option<bool>, ext_scv: Option<bool>) -> Option<Seq<char>> {
    let scv = match n.allow_insecure {
        Some(_) => n.allow_insecure,
        None => ext_scv,
    };
    match loon_body(n, scv) {
        Some(b) => Some(
            b + (if ext_tfo == Some(true) {
                ",fast-open=true"@
            } else {
                Seq::empty()
            }) + if ext_udp == Some(true) {
                ",udp=true"@
            } else {
                Seq::empty()
            },
        ),
        None => None,
    }
}

/// The characters of an optional text, empty where it is unset.
fn loon_txt(o: &Option<String>) -> (r: Vec<char>)
    ensures
        r@ == txt(*o),
{
    match o {
        Some(s) => chars_of(s.as_str()),
        None => Vec::new(),
    }
}

/// Appends `key` and the flag where the flag is set.
fn loon_flag(v: &mut Vec<char>, key: &str, o: Option<bool>)
    ensures
        final(v)@ == old(v)@ + flag_field(key@, o),
{
    match o {
        Some(b) => {
            push_str(v, key);
            push_str(v, if b { "true" } else { "false" });
        },
        None => {},
    }
    assert(v@ =~= old(v)@ + flag_field(key@, o));
}

/// Appends server and port (see [`loon_at`]).
fn push_loon_at(v: &mut Vec<char>, n: &Proxy)
    ensures
        final(v)@ == old(v)@ + loon_at(*n),
{
    push_str(v, ",");
    push_str(v, n.hostname.as_str());
    push_str(v, ",");
    let p = u64_decimal(n.port as u64);
    push_all(v, p.as_slice());
    assert(v@ =~= old(v)@ + loon_at(*n));
}

/// Appends a quoted text.
fn push_quoted(v: &mut Vec<char>, s: &[char])
    ensures
        final(v)@ == old(v)@ + quoted(s@),
{
    push_str(v, "\"");
    push_all(v, s);
    push_str(v, "\"");
    assert(v@ =~= old(v)@ + quoted(s@));
}

/// Appends `,tls-name=` and the host where the host is set.
fn push_tls_name(v: &mut Vec<char>, host: &[char])
    ensures
        final(v)@ == old(v)@ + (if host@.len() > 0 {
            ",tls-name="@ + host@
        } else {
            Seq::empty()
        }),
{
    if host.len() > 0 {
        push_str(v, ",tls-name=");
        push_all(v, host);
    }
    assert(v@ =~= old(v)@ + (if host@.len() > 0 {
        ",tls-name="@ + host@
    } else {
        Seq::empty()
    }));
}

/// Appends the credentials (see [`credentials`]).
fn push_credentials(v: &mut Vec<char>, user: &[char], password: &[char])
    ensures
        final(v)@ == old(v)@ + credentials(user@, password@),
{
    if user.len() > 0 {
        push_str(v, ",");
        push_all(v, user);
        if password.len() > 0 {
            push_str(v, ",");
            push_quoted(v, password);
        }
    }
    assert(v@ =~= old(v)@ + credentials(user@, password@));
}

/// Appends the DNS settings (see [`dns_fields`]).
fn push_dns(v: &mut Vec<char>, servers: &Vec<String>)
    ensures
        final(v)@ == old(v)@ + dns_fields(string_views(servers@)),
{
    let ghost sv = string_views(servers@);
    let mut i: usize = 0;
    while i < servers.len()
        invariant
            i <= servers@.len(),
            sv == string_views(servers@),
            v@ == old(v)@ + dns_fields(sv.take(i as int)),
        decreases servers@.len() - i,
    {
        assert(sv.take(i + 1).drop_last() =~= sv.take(i as int));
        let s = chars_of(servers[i].as_str());
        if contains_char(s.as_slice(), '.') {
            push_str(v, ", dns=");
            push_all(v, s.as_slice());
        } else if contains_char(s.as_slice(), ':') {
            push_str(v, ", dnsv6=");
            push_all(v, s.as_slice());
        }
        i = i + 1;
        assert(v@ =~= old(v)@ + dns_fields(sv.take(i as int)));
    }
    assert(sv.take(i as int) =~= sv);
}

/// The line of a node without its general options (see [`loon_body`]).
fn loon_body_exec(n: &Proxy, scv: Option<bool>) -> (r: Option<Vec<char>>)
    ensures
        match r {
            Some(v) => loon_body(*n, scv) == Some(v@),
            None => loon_body(*n, scv) is None,
        },
{
    let host = loon_txt(&n.host);
    let user = loon_txt(&n.username);
    let password = loon_txt(&n.password);
    let mut v: Vec<char> = Vec::new();
    match n.proxy_type {
        ProxyType::Shadowsocks => {
            push_str(&mut v, "Shadowsocks");
            push_loon_at(&mut v, n);
            push_str(&mut v, ",");
            let method = loon_txt(&n.encrypt_method);
            push_all(&mut v, method.as_slice());
            push_str(&mut v, ",");
            push_quoted(&mut v, password.as_slice());
            let plugin = loon_txt(&n.plugin);
            if eq_str(plugin.as_slice(), "simple-obfs") || eq_str(plugin.as_slice(), "obfs-local") {
                let opts = loon_txt(&n.plugin_option);
                let ghost head = v@;
                if opts.len() > 0 {
                    push_str(&mut v, ",");
                    let a = chars_of(";obfs-host=");
                    let b = chars_of(",");
                    let c = chars_of("obfs=");
                    let nothing: Vec<char> = Vec::new();
                    proof {
                        reveal_strlit(";obfs-host=");
                        reveal_strlit("obfs=");
                    }
                    let step = replace_all_exec(opts.as_slice(), a.as_slice(), b.as_slice());
                    let done = replace_all_exec(step.as_slice(), c.as_slice(), nothing.as_slice());
                    assert(nothing@ =~= Seq::<char>::empty());
                    push_all(&mut v, done.as_slice());
                    assert(v@ =~= head + (","@ + replace_all(
                        replace_all(opts@, ";obfs-host="@, ","@),
                        "obfs="@,
                        Seq::empty(),
                    )));
                } else {
                    assert(v@ =~= head + Seq::<char>::empty());
                }
                Some(v)
            } else if plugin.len() > 0 {
                None
            } else {
                Some(v)
            }
        },
        ProxyType::VMess => {
            let method = loon_txt(&n.encrypt_method);
            push_str(&mut v, "vmess");
            push_loon_at(&mut v, n);
            push_str(&mut v, ",");
            if eq_str(method.as_slice(), "auto") {
                push_str(&mut v, "chacha20-ietf-poly1305");
            } else {
                push_all(&mut v, method.as_slice());
            }
            push_str(&mut v, ",");
            let id = loon_txt(&n.user_id);
            push_quoted(&mut v, id.as_slice());
            push_str(&mut v, ",over-tls=");
            push_str(&mut v, if n.tls_secure { "true" } else { "false" });
            if n.tls_secure {
                push_str(&mut v, ",tls-name=");
                push_all(&mut v, host.as_slice());
            }
            let proto = loon_txt(&n.transfer_protocol);
            if eq_str(proto.as_slice(), "tcp") {
                push_str(&mut v, ",transport=tcp");
            } else if eq_str(proto.as_slice(), "ws") {
                push_str(&mut v, ",transport=ws,path=");
                let path = loon_txt(&n.path);
                push_all(&mut v, path.as_slice());
                push_str(&mut v, ",host=");
                push_all(&mut v, host.as_slice());
            } else {
                return None;
            }
            loon_flag(&mut v, ",skip-cert-verify=", scv);
            Some(v)
        },
        ProxyType::ShadowsocksR => {
            push_str(&mut v, "ShadowsocksR");
            push_loon_at(&mut v, n);
            push_str(&mut v, ",");
            let method = loon_txt(&n.encrypt_method);
            push_all(&mut v, method.as_slice());
            push_str(&mut v, ",");
            push_quoted(&mut v, password.as_slice());
            push_str(&mut v, ",protocol=");
            let protocol = loon_txt(&n.protocol);
            push_all(&mut v, protocol.as_slice());
            push_str(&mut v, ",protocol-param=");
            let pp = loon_txt(&n.protocol_param);
            push_all(&mut v, pp.as_slice());
            push_str(&mut v, ",obfs=");
            let obfs = loon_txt(&n.obfs);
            push_all(&mut v, obfs.as_slice());
            push_str(&mut v, ",obfs-param=");
            let op = loon_txt(&n.obfs_param);
            push_all(&mut v, op.as_slice());
            Some(v)
        },
        ProxyType::HTTP => {
            push_str(&mut v, "http");
            push_loon_at(&mut v, n);
            push_credentials(&mut v, user.as_slice(), password.as_slice());
            Some(v)
        },
        ProxyType::HTTPS => {
            push_str(&mut v, "https");
            push_loon_at(&mut v, n);
            push_credentials(&mut v, user.as_slice(), password.as_slice());
            push_tls_name(&mut v, host.as_slice());
            loon_flag(&mut v, ",skip-cert-verify=", scv);
            Some(v)
        },
        ProxyType::Trojan => {
            push_str(&mut v, "trojan");
            push_loon_at(&mut v, n);
            push_str(&mut v, ",");
            push_quoted(&mut v, password.as_slice());
            push_tls_name(&mut v, host.as_slice());
            loon_flag(&mut v, ",skip-cert-verify=", scv);
            Some(v)
        },
        ProxyType::Socks5 => {
            push_str(&mut v, "socks5");
            push_loon_at(&mut v, n);
            let ghost head = v@;
            if user.len() > 0 && password.len() > 0 {
                push_str(&mut v, ",");
                push_all(&mut v, user.as_slice());
                push_str(&mut v, ",");
                push_quoted(&mut v, password.as_slice());
            }
            assert(v@ =~= head + (if user@.len() > 0 && password@.len() > 0 {
                ","@ + user@ + ","@ + quoted(password@)
            } else {
                Seq::empty()
            }));
            push_str(&mut v, ",over-tls=");
            push_str(&mut v, if n.tls_secure { "true" } else { "false" });
            let ghost mid = v@;
            if n.tls_secure {
                push_tls_name(&mut v, host.as_slice());
                loon_flag(&mut v, ",skip-cert-verify=", scv);
            }
            assert(v@ =~= mid + (if n.tls_secure {
                (if host@.len() > 0 {
                    ",tls-name="@ + host@
                } else {
                    Seq::empty()
                }) + flag_field(",skip-cert-verify="@, scv)
            } else {
                Seq::empty()
            }));
            Some(v)
        },
        ProxyType::WireGuard => {
            push_str(&mut v, "wireguard, interface-ip=");
            let ip = loon_txt(&n.self_ip);
            push_all(&mut v, ip.as_slice());
            let ip6 = loon_txt(&n.self_ipv6);
            let ghost a = v@;
            if ip6.len() > 0 {
                push_str(&mut v, ", interface-ipv6=");
                push_all(&mut v, ip6.as_slice());
            }
            assert(v@ =~= a + (if ip6@.len() > 0 {
                ", interface-ipv6="@ + ip6@
            } else {
                Seq::empty()
            }));
            let ghost b = v@;
            match &n.private_key {
                Some(k) => {
                    push_str(&mut v, ", private-key=");
                    push_str(&mut v, k.as_str());
                },
                None => {},
            }
            assert(v@ =~= b + (match n.private_key {
                Some(k) => ", private-key="@ + k@,
                None => Seq::empty(),
            }));
            push_dns(&mut v, &n.dns_servers);
            let ghost c = v@;
            if n.mtu > 0 {
                push_str(&mut v, ", mtu=");
                let d = u64_decimal(n.mtu as u64);
                push_all(&mut v, d.as_slice());
            }
            assert(v@ =~= c + (if n.mtu > 0 {
                ", mtu="@ + nat_decimal(n.mtu as nat)
            } else {
                Seq::empty()
            }));
            let ghost d0 = v@;
            if n.keep_alive > 0 {
                push_str(&mut v, ", keepalive=");
                let d = u64_decimal(n.keep_alive as u64);
                push_all(&mut v, d.as_slice());
            }
            assert(v@ =~= d0 + (if n.keep_alive > 0 {
                ", keepalive="@ + nat_decimal(n.keep_alive as nat)
            } else {
                Seq::empty()
            }));
            push_str(&mut v, ", peers=[{");
            let peer = generate_peer(n, true);
            push_str(&mut v, peer.as_str());
            push_str(&mut v, "}]");
            Some(v)
        },
        _ => None,
    }
}

/// The line of a node in a Loon configuration (see [`loon_line_of`]); the
/// `ext_*` are the defaults of the conversion.
pub fn loon_proxy_line(node: &Proxy, ext_udp: Option<bool>, ext_tfo: Option<bool>, ext_scv: Option<bool>) -> (r: Option<String>)
    ensures
        match r {
            Some(s) => loon_line_of(*node, ext_udp, ext_tfo, ext_scv) == Some(s@),
            None => loon_line_of(*node, ext_udp, ext_tfo, ext_scv) is None,
        },
{
    let scv = match node.allow_insecure {
        Some(b) => Some(b),
        None => ext_scv,
    };
    match loon_body_exec(node, scv) {
        Some(mut v) => {
            let ghost body = v@;
            let tfo_on = match ext_tfo {
                Some(b) => b,
                None => false,
            };
            if tfo_on {
                push_str(&mut v, ",fast-open=true");
            }
            let udp_on = match ext_udp {
                Some(b) => b,
                None => false,
            };
            if udp_on {
                push_str(&mut v, ",udp=true");
            }
            assert(v@ =~= body + (if ext_tfo == Some(true) {
                ",fast-open=true"@
            } else {
                Seq::empty()
            }) + (if ext_udp == Some(true) {
                ",udp=true"@
            } else {
                Seq::empty()
            }));
            Some(string_of(v.as_slice()))
        },
        None => None,
    }
}

/// The node list of a Loon configuration: for each node that Loon takes
/// (see [`loon_line_of`]), its remark (`remarks`, one per node, as the
/// caller has made them unique), ` = ` and its line, each on a line of its
/// own.
pub open spec fn loon_node_list_of(
    nodes: Seq<Proxy>,
    remarks: Seq<Seq<char>>,
    ext_udp: Option<bool>,
    ext_tfo: Option<bool>,
    ext_scv: Option<bool>,
) -> Seq<char>
    decreases nodes.len(),
{
    if nodes.len() == 0 || remarks.len() != nodes.len() {
        Seq::empty()
    } else {
        loon_node_list_of(nodes.drop_last(), remarks.drop_last(), ext_udp, ext_tfo, ext_scv) + match loon_line_of(
            nodes.last(),
            ext_udp,
            ext_tfo,
            ext_scv,
        ) {
            Some(l) => remarks.last() + " = "@ + l + "\n"@,
            None => Seq::empty(),
        }
    }
}

/// The node list of a Loon configuration (see [`loon_node_list_of`]), what
/// a conversion that asks only for nodes gives.
pub fn loon_node_list(
    nodes: &Vec<Proxy>,
    remarks: &Vec<String>,
    ext_udp: Option<bool>,
    ext_tfo: Option<bool>,
    ext_scv: Option<bool>,
) -> (r: String)
    requires
        remarks@.len() == nodes@.len(),
    ensures
        r@ == loon_node_list_of(nodes@, string_views(remarks@), ext_udp, ext_tfo, ext_scv),
{
    let ghost rv = string_views(remarks@);
    let mut out: Vec<char> = Vec::new();
    let mut i: usize = 0;
    assert(nodes@.take(0) =~= Seq::<Proxy>::empty());
    while i < nodes.len()
        invariant
            i <= nodes@.len(),
            remarks@.len() == nodes@.len(),
            rv == string_views(remarks@),
            out@ == loon_node_list_of(nodes@.take(i as int), rv.take(i as int), ext_udp, ext_tfo, ext_scv),
        decreases nodes@.len() - i,
    {
        assert(nodes@.take(i + 1).drop_last() =~= nodes@.take(i as int));
        assert(rv.take(i + 1).drop_last() =~= rv.take(i as int));
        assert(nodes@.take(i + 1).last() == nodes@[i as int]);
        assert(rv.take(i + 1).last() == remarks@[i as int]@);
        let ghost before = out@;
        match loon_proxy_line(&nodes[i], ext_udp, ext_tfo, ext_scv) {
            Some(l) => {
                push_str(&mut out, remarks[i].as_str());
                push_str(&mut out, " = ");
                push_str(&mut out, l.as_str());
                push_str(&mut out, "\n");
                assert(out@ =~= before + (remarks@[i as int]@ + " = "@ + l@ + "\n"@));
            },
            None => {
                assert(out@ =~= before + Seq::<char>::empty());
            },
        }
        i = i + 1;
    }
    assert(nodes@.take(i as int) =~= nodes@);
    assert(rv.take(i as int) =~= rv);
    string_of(out.as_slice())
}

// ---------------------------------------------------------------------------
// Proxy group lines
// ---------------------------------------------------------------------------
/// The texts `items` with `sep` between each two.
pub open spec fn join(items: Seq<Seq<char>>, sep: Seq<char>) -> Seq<char>
    decreases items.len(),
{
    if items.len() == 0 {
        Seq::empty()
    } else if items.len() == 1 {
        items[0]
    } else {
        join(items.drop_last(), sep) + sep + items.last()
    }
}

/// The test settings of a Loon group of a testing kind.
pub open spec fn loon_test_fields(g: ProxyGroupConfig) -> Seq<char> {
    if g.group_type == ProxyGroupType::Select {
        Seq::empty()
    } else {
        ",url="@ + g.url@ + ",interval="@ + nat_decimal(g.interval as nat) + if g.group_type
            == ProxyGroupType::LoadBalance {
            ",algorithm="@ + (if g.strategy == BalanceStrategy::RoundRobin {
                "round-robin"@
            } else {
                "pcc"@
            }) + if g.timeout > 0 {
                ",max-timeout="@ + nat_decimal(g.timeout as nat)
            } else {
                Seq::empty()
            }
        } else if g.group_type == ProxyGroupType::URLTest {
            if g.tolerance > 0 {
                ",tolerance="@ + nat_decimal(g.tolerance as nat)
            } else {
                Seq::empty()
            }
        } else {
            ",max-timeout="@ + nat_decimal(g.timeout as nat)
        }
    }
}

/// The line of a group in a Loon configuration, with the node names
/// `filtered` chosen for it; `None` for a kind Loon does not have. A
/// selection, load-balancing, latency-test or fallback group lists its nodes
/// (`DIRECT` where there are none) and the settings of its kind; an SSID
/// group of at least two entries names the first as default.
pub open spec fn loon_group_line_of(g: ProxyGroupConfig, filtered: Seq<Seq<char>>) -> Option<Seq<char>> {
    let t = g.group_type;
    if t == ProxyGroupType::Select || t == ProxyGroupType::LoadBalance || t == ProxyGroupType::URLTest
        || t == ProxyGroupType::Fallback {
        let nodes = if filtered.len() == 0 {
            seq!["DIRECT"@]
        } else {
            filtered
        };
        Some(g.name@ + " = "@ + group_type_name(t) + ","@ + join(nodes, ","@) + loon_test_fields(g))
    } else if t == ProxyGroupType::SSID && g.proxies@.len() >= 2 {
        let names = string_views(g.proxies@);
        Some(g.name@ + " = "@ + group_type_name(t) + ",default="@ + names[0] + ","@ + join(names.skip(1), ","@))
    } else {
        None
    }
}

/// Appends the texts from index `from` on, with `,` between each two (see
/// [`join`]).
pub(crate) fn push_joined(v: &mut Vec<char>, items: &[String], from: usize)
    requires
        from <= items@.len(),
    ensures
        final(v)@ == old(v)@ + join(string_views(items@).skip(from as int), ","@),
{
    let ghost iv = string_views(items@).skip(from as int);
    let mut i: usize = from;
    assert(iv.take(0) =~= Seq::<Seq<char>>::empty());
    while i < items.len()
        invariant
            from <= i <= items@.len(),
            iv == string_views(items@).skip(from as int),
            v@ == old(v)@ + join(iv.take(i - from), ","@),
        decreases items@.len() - i,
    {
        let ghost k = i - from;
        assert(iv.take(k + 1).drop_last() =~= iv.take(k));
        assert(iv[k] == items@[i as int]@);
        if i > from {
            push_str(v, ",");
        }
        push_str(v, items[i].as_str());
        i = i + 1;
        proof {
            reveal_strlit(",");
            if k == 0 {
                assert(iv.take(1) =~= seq![iv[0]]);
            }
        }
        assert(v@ =~= old(v)@ + join(iv.take(i - from), ","@));
    }
    assert(iv.take(i - from) =~= iv);
}

/// Appends a number in decimal.
pub(crate) fn push_number(v: &mut Vec<char>, n: u32)
    ensures
        final(v)@ == old(v)@ + nat_decimal(n as nat),
{
    let d = u64_decimal(n as u64);
    push_all(v, d.as_slice());
}

/// Appends the test settings of a group (see [`loon_test_fields`]).
fn push_loon_test_fields(v: &mut Vec<char>, group: &ProxyGroupConfig)
    ensures
        final(v)@ == old(v)@ + loon_test_fields(*group),
{
    let t = group.group_type;
    if t != ProxyGroupType::Select {
        push_str(v, ",url=");
        push_str(v, group.url.as_str());
        push_str(v, ",interval=");
        push_number(v, group.interval);
        if t == ProxyGroupType::LoadBalance {
            push_str(v, ",algorithm=");
            push_str(
                v,
                match group.strategy {
                    BalanceStrategy::RoundRobin => "round-robin",
                    BalanceStrategy::ConsistentHashing => "pcc",
                },
            );
            if group.timeout > 0 {
                push_str(v, ",max-timeout=");
                push_number(v, group.timeout);
            }
        } else if t == ProxyGroupType::URLTest {
            if group.tolerance > 0 {
                push_str(v, ",tolerance=");
                push_number(v, group.tolerance);
            }
        } else {
            push_str(v, ",max-timeout=");
            push_number(v, group.timeout);
        }
    }
    assert(v@ =~= old(v)@ + loon_test_fields(*group));
}

/// Appends the node names of a group, `DIRECT` where there are none.
fn push_group_nodes(v: &mut Vec<char>, filtered: &[String])
    ensures
        final(v)@ == old(v)@ + join(
            if filtered@.len() == 0 {
                seq!["DIRECT"@]
            } else {
                string_views(filtered@)
            },
            ","@,
        ),
{
    if filtered.len() == 0 {
        let direct = vec!["DIRECT".to_owned()];
        push_joined(v, direct.as_slice(), 0);
        assert(string_views(direct@).skip(0) =~= seq!["DIRECT"@]);
    } else {
        push_joined(v, filtered, 0);
        assert(string_views(filtered@).skip(0) =~= string_views(filtered@));
    }
}

/// The line of a group in a Loon configuration (see [`loon_group_line_of`]).
pub fn loon_group_line(group: &ProxyGroupConfig, filtered: &[String]) -> (r: Option<String>)
    ensures
        match r {
            Some(s) => loon_group_line_of(*group, string_views(filtered@)) == Some(s@),
            None => loon_group_line_of(*group, string_views(filtered@)) is None,
        },
{
    let t = group.group_type;
    let mut v: Vec<char> = Vec::new();
    if t == ProxyGroupType::Select || t == ProxyGroupType::LoadBalance || t == ProxyGroupType::URLTest
        || t == ProxyGroupType::Fallback {
        push_str(&mut v, group.name.as_str());
        push_str(&mut v, " = ");
        push_str(&mut v, group.type_str());
        push_str(&mut v, ",");
        push_group_nodes(&mut v, filtered);
        push_loon_test_fields(&mut v, group);
        Some(string_of(v.as_slice()))
    } else if t == ProxyGroupType::SSID && group.proxies.len() >= 2 {
        push_str(&mut v, group.name.as_str());
        push_str(&mut v, " = ");
        push_str(&mut v, group.type_str());
        push_str(&mut v, ",default=");
        push_str(&mut v, group.proxies[0].as_str());
        push_str(&mut v, ",");
        push_joined(&mut v, group.proxies.as_slice(), 1);
        assert(v@ =~= group.name@ + " = "@ + group_type_name(t) + ",default="@ + string_views(
            group.proxies@,
        )[0] + ","@ + join(string_views(group.proxies@).skip(1), ","@));
        Some(string_of(v.as_slice()))
    } else {
        None
    }
}


/// The group lines of a Loon configuration, one per group (see
/// [`loon_group_line_of`]): a group of a kind that lists nodes has the
/// members its rules give it among `nodes`, direct entries included.
pub open spec fn loon_group_lines_of(groups: Seq<ProxyGroupConfig>, nodes: Seq<Proxy>, authorized: bool) -> Seq<
    Option<Seq<char>>,
> {
    Seq::new(groups.len(), |i: int| loon_group_line_of(groups[i], rule_members(groups[i], nodes, true, authorized)))
}

/// Whether a Loon group of kind `t` lists nodes.
pub open spec fn loon_lists(t: ProxyGroupType) -> bool {
    t == ProxyGroupType::Select || t == ProxyGroupType::LoadBalance || t == ProxyGroupType::URLTest || t
        == ProxyGroupType::Fallback
}

/// The group lines of a Loon configuration (see [`loon_group_lines_of`]).
/// The rules of each group that lists nodes must fit the nodes.
pub fn loon_group_lines(groups: &Vec<ProxyGroupConfig>, nodes: &[Proxy], ext: &ExtraSettings) -> (r: Vec<
    Option<String>,
>)
    requires
        forall|i: int|
            0 <= i < groups@.len() && loon_lists((#[trigger] groups@[i]).group_type) ==> group_fits(
                groups@[i],
                nodes@,
            ),
    ensures
        r@.len() == groups@.len(),
        forall|i: int|
            0 <= i < groups@.len() ==> ov(#[trigger] r@[i]) == loon_group_lines_of(
                groups@,
                nodes@,
                ext.authorized,
            )[i],
{
    let mut r: Vec<Option<String>> = Vec::new();
    let mut i: usize = 0;
    while i < groups.len()
        invariant
            i <= groups@.len(),
            r@.len() == i,
            forall|k: int|
                0 <= k < groups@.len() && loon_lists((#[trigger] groups@[k]).group_type) ==> group_fits(
                    groups@[k],
                    nodes@,
                ),
            forall|k: int|
                0 <= k < i ==> ov(#[trigger] r@[k]) == loon_group_lines_of(groups@, nodes@, ext.authorized)[k],
        decreases groups@.len() - i,
    {
        let g = &groups[i];
        let t = g.group_type;
        let line = if t == ProxyGroupType::Select || t == ProxyGroupType::LoadBalance || t == ProxyGroupType::URLTest
            || t == ProxyGroupType::Fallback {
            let members = group_rule_members(g, nodes, true, ext);
            loon_group_line(g, members.as_slice())
        } else {
            let none: Vec<String> = Vec::new();
            loon_group_line(g, none.as_slice())
        };
        assert(ov(line) == loon_group_lines_of(groups@, nodes@, ext.authorized)[i as int]);
        r.push(line);
        i = i + 1;
    }
    r
}


/// A Loon configuration: the base configuration `base` with the node
/// lines in `Proxy`, the group lines in `Proxy Group` and the rules in
/// `Rule`, the remote rules into `Remote Rule` (see [`client_updates`]); the base's own nodes and groups are replaced, and the
/// base's rules are kept before the new ones unless
/// `overwrite_original_rules`.
pub fn loon_config(
    base: &str,
    node_lines: &Vec<String>,
    group_lines: &Vec<String>,
    rules: &Vec<String>,
    remote_rules: &Vec<String>,
    overwrite_original_rules: bool,
) -> (r: String)
    ensures
        r@ == ini_text_of(
            with_sections(
                ini_sections(base@),
                client_updates(
                    ini_sections(base@),
                    "Proxy"@,
                    false,
                    string_views(node_lines@),
                    "Proxy Group"@,
                    false,
                    string_views(group_lines@),
                    "Rule"@,
                    string_views(rules@),
                    Some("Remote Rule"@),
                    string_views(remote_rules@),
                    overwrite_original_rules,
                ),
            ),
        ),
{
    client_config(
        base,
        "Proxy",
        false,
        node_lines,
        "Proxy Group",
        false,
        group_lines,
        "Rule",
        rules,
        Some("Remote Rule"),
        remote_rules,
        overwrite_original_rules,
    )
}


/// A Trojan node always gets a Loon line, which holds the node's password
/// in double quotes followed at once by `,tls-name=` and its host, wherever
/// the host is not empty.
pub proof fn law_loon_trojan_tls_name(n: Proxy, ext_udp: Option<bool>, ext_tfo: Option<bool>, ext_scv: Option<bool>)
    requires
        n.proxy_type == ProxyType::Trojan,
    ensures
        loon_line_of(n, ext_udp, ext_tfo, ext_scv) matches Some(l) && has_prefix(
            l,
            "trojan,"@ + n.hostname@ + ","@ + nat_decimal(n.port as nat) + ",\""@ + txt(n.password) + "\""@,
        ) && (txt(n.host).len() > 0 ==> contains_seq(
            l,
            "\""@ + txt(n.password) + "\",tls-name="@ + txt(n.host),
        )),
{
    let scv = match n.allow_insecure {
        Some(_) => n.allow_insecure,
        None => ext_scv,
    };
    let head = "trojan"@ + loon_at(n) + ","@;
    let tail = flag_field(",skip-cert-verify="@, scv) + (if ext_tfo == Some(true) {
        ",fast-open=true"@
    } else {
        Seq::empty()
    }) + if ext_udp == Some(true) {
        ",udp=true"@
    } else {
        Seq::empty()
    };
    reveal_strlit("trojan");
    reveal_strlit("trojan,");
    reveal_strlit(",");
    reveal_strlit(",\"");
    reveal_strlit("\"");
    let lead = "trojan,"@ + n.hostname@ + ","@ + nat_decimal(n.port as nat) + ",\""@ + txt(n.password) + "\""@;
    let tn = if txt(n.host).len() > 0 {
        ",tls-name="@ + txt(n.host)
    } else {
        Seq::empty()
    };
    assert(head + quoted(txt(n.password)) =~= lead);
    let full = lead + tn + tail;
    assert(loon_line_of(n, ext_udp, ext_tfo, ext_scv) == Some(full));
    assert(full.take(lead.len() as int) =~= lead);
    if txt(n.host).len() > 0 {
        let mid = "\""@ + txt(n.password) + "\",tls-name="@ + txt(n.host);
        reveal_strlit("\"");
        reveal_strlit("\",tls-name=");
        reveal_strlit(",tls-name=");
        assert(quoted(txt(n.password)) + ",tls-name="@ + txt(n.host) =~= mid);
        let l = head + mid + tail;
        assert(loon_line_of(n, ext_udp, ext_tfo, ext_scv) == Some(l));
        lemma_contains_middle(head, mid, tail);
    }
}

} // verus!

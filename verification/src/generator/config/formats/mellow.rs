//! The Mellow client format.
use super::loon::join;
use super::surge::{defined, flag_field, push_flag, push_joined_by, tf, txt, txt_exec};
use crate::generator::config::group::{group_fits, group_rule_members, rule_members};
use crate::models::extra_settings::ExtraSettings;
use crate::models::proxy::{Proxy, ProxyType};
use crate::models::proxy_group_config::{ProxyGroupConfig, ProxyGroupType};
use crate::text::{chars_of, eq_str, nat_decimal, ov, push_all, push_str, string_of, string_views, u64_decimal};
use crate::utils::base64::{base64, url_safe, url_safe_base64_encode};
use crate::utils::url::{url_encode, url_escape};
use crate::utils::ini::{client_config, client_updates, ini_sections, ini_text_of, with_sections};
use vstd::prelude::*;
use vstd::utf8::encode_utf8;

verus! {

// ---------------------------------------------------------------------------
// Endpoint lines
// ---------------------------------------------------------------------------
/// A text percent-encoded as UTF-8.
pub open spec fn url_text(s: Seq<char>) -> Seq<char> {
    url_escape(encode_utf8(s))
}

/// A text in URL-safe base64 as UTF-8.
pub open spec fn b64_text(s: Seq<char>) -> Seq<char> {
    url_safe(base64(encode_utf8(s)))
}

/// The transport settings of a VMess endpoint: the WebSocket or HTTP host,
/// or the QUIC security and key, where the transport has them.
pub open spec fn mellow_transport(n: Proxy) -> Seq<char> {
    let proto = txt(n.transfer_protocol);
    let host = txt(n.host);
    if proto == "ws"@ {
        "&ws.host="@ + url_text(host)
    } else if proto == "http"@ && host.len() > 0 {
        "&http.host="@ + url_text(host)
    } else if proto == "quic"@ && txt(n.quic_secure).len() > 0 {
        "&quic.security="@ + txt(n.quic_secure) + "&quic.key="@ + txt(n.quic_secret)
    } else {
        Seq::empty()
    }
}

/// The VMess endpoint line.
pub open spec fn mellow_vmess(n: Proxy, scv: Option<bool>, tfo: Option<bool>) -> Seq<char> {
    let host = txt(n.host);
    n.remark@ + ", vmess1, vmess1://"@ + txt(n.user_id) + "@"@ + n.hostname@ + ":"@ + nat_decimal(
        n.port as nat,
    ) + txt(n.path) + "?network="@ + txt(n.transfer_protocol) + mellow_transport(n) + "&tls="@ + tf(
        n.tls_secure,
    ) + (if n.tls_secure && host.len() > 0 {
        "&tls.servername="@ + url_text(host)
    } else {
        Seq::empty()
    }) + flag_field("&tls.allowinsecure="@, scv) + flag_field("&sockopt.tcpfastopen="@, tfo)
}

/// A built-in SOCKS or HTTP endpoint line.
pub open spec fn mellow_builtin(n: Proxy, kind: Seq<char>) -> Seq<char> {
    n.remark@ + ", builtin, "@ + kind + ", address="@ + n.hostname@ + ", port="@ + nat_decimal(
        n.port as nat,
    ) + ", user="@ + txt(n.username) + ", pass="@ + txt(n.password)
}

/// The endpoint line of a node in the `Endpoint` section of Mellow, its
/// certificate check and TCP Fast Open taking the defaults `ext_*` where it
/// has none. `None` for a Shadowsocks node with a plugin and for protocols
/// that Mellow cannot use.
pub open spec fn mellow_line_of(n: Proxy, ext_tfo: Option<bool>, ext_scv: Option<bool>) -> Option<Seq<char>> {
    match n.proxy_type {
        ProxyType::Shadowsocks => if txt(n.plugin).len() > 0 {
            None
        } else {
            Some(
                n.remark@ + ", ss, ss://"@ + b64_text(
                    txt(n.encrypt_method) + ":"@ + txt(n.password),
                ) + "/"@ + n.hostname@ + ":"@ + nat_decimal(n.port as nat),
            )
        },
        ProxyType::VMess => Some(
            mellow_vmess(n, defined(n.allow_insecure, ext_scv), defined(n.tcp_fast_open, ext_tfo)),
        ),
        ProxyType::Socks5 => Some(mellow_builtin(n, "socks"@)),
        ProxyType::HTTP => Some(mellow_builtin(n, "http"@)),
        _ => None,
    }
}

/// Appends the percent-encoding of a text (see [`url_text`]).
fn push_url(v: &mut Vec<char>, t: &[char])
    ensures
        final(v)@ == old(v)@ + url_text(t@),
{
    let s = string_of(t);
    let e = url_encode(s.as_str());
    push_str(v, e.as_str());
}

/// Appends a port number.
fn push_port(v: &mut Vec<char>, port: u16)
    ensures
        final(v)@ == old(v)@ + nat_decimal(port as nat),
{
    let d = u64_decimal(port as u64);
    push_all(v, d.as_slice());
}

/// The VMess endpoint line (see [`mellow_vmess`]).
fn vmess_line(n: &Proxy, scv: Option<bool>, tfo: Option<bool>) -> (r: Vec<char>)
    ensures
        r@ == mellow_vmess(*n, scv, tfo),
{
    let mut v = chars_of(n.remark.as_str());
    push_str(&mut v, ", vmess1, vmess1://");
    let id = txt_exec(&n.user_id);
    push_all(&mut v, id.as_slice());
    push_str(&mut v, "@");
    push_str(&mut v, n.hostname.as_str());
    push_str(&mut v, ":");
    push_port(&mut v, n.port);
    let path = txt_exec(&n.path);
    push_all(&mut v, path.as_slice());
    push_str(&mut v, "?network=");
    let proto = txt_exec(&n.transfer_protocol);
    push_all(&mut v, proto.as_slice());
    let host = txt_exec(&n.host);
    let ghost t0 = v@;
    if eq_str(proto.as_slice(), "ws") {
        push_str(&mut v, "&ws.host=");
        push_url(&mut v, host.as_slice());
    } else if eq_str(proto.as_slice(), "http") && host.len() > 0 {
        push_str(&mut v, "&http.host=");
        push_url(&mut v, host.as_slice());
    } else if eq_str(proto.as_slice(), "quic") {
        let qs = txt_exec(&n.quic_secure);
        if qs.len() > 0 {
            push_str(&mut v, "&quic.security=");
            push_all(&mut v, qs.as_slice());
            push_str(&mut v, "&quic.key=");
            let qk = txt_exec(&n.quic_secret);
            push_all(&mut v, qk.as_slice());
        }
    }
    assert(v@ =~= t0 + mellow_transport(*n));
    push_str(&mut v, "&tls=");
    push_str(&mut v, if n.tls_secure { "true" } else { "false" });
    let ghost s0 = v@;
    if n.tls_secure && host.len() > 0 {
        push_str(&mut v, "&tls.servername=");
        push_url(&mut v, host.as_slice());
    }
    assert(v@ =~= s0 + (if n.tls_secure && host@.len() > 0 {
        "&tls.servername="@ + url_text(host@)
    } else {
        Seq::empty()
    }));
    push_flag(&mut v, "&tls.allowinsecure=", scv);
    push_flag(&mut v, "&sockopt.tcpfastopen=", tfo);
    assert(v@ =~= mellow_vmess(*n, scv, tfo));
    v
}

/// A built-in endpoint line (see [`mellow_builtin`]).
fn builtin_line(n: &Proxy, kind: &str) -> (r: Vec<char>)
    ensures
        r@ == mellow_builtin(*n, kind@),
{
    let mut v = chars_of(n.remark.as_str());
    push_str(&mut v, ", builtin, ");
    push_str(&mut v, kind);
    push_str(&mut v, ", address=");
    push_str(&mut v, n.hostname.as_str());
    push_str(&mut v, ", port=");
    push_port(&mut v, n.port);
    push_str(&mut v, ", user=");
    let user = txt_exec(&n.username);
    push_all(&mut v, user.as_slice());
    push_str(&mut v, ", pass=");
    let password = txt_exec(&n.password);
    push_all(&mut v, password.as_slice());
    assert(v@ =~= mellow_builtin(*n, kind@));
    v
}

/// The endpoint line of a node for Mellow (see [`mellow_line_of`]);
/// `ext_*` are the defaults of the conversion.
pub fn mellow_proxy_line(node: &Proxy, ext_tfo: Option<bool>, ext_scv: Option<bool>) -> (r: Option<String>)
    ensures
        ov(r) == mellow_line_of(*node, ext_tfo, ext_scv),
{
    match node.proxy_type {
        ProxyType::Shadowsocks => {
            let plugin = txt_exec(&node.plugin);
            if plugin.len() > 0 {
                return None;
            }
            let mut cred = txt_exec(&node.encrypt_method);
            push_str(&mut cred, ":");
            let password = txt_exec(&node.password);
            push_all(&mut cred, password.as_slice());
            let cs = string_of(cred.as_slice());
            let enc = url_safe_base64_encode(cs.as_str());
            let mut v = chars_of(node.remark.as_str());
            push_str(&mut v, ", ss, ss://");
            push_str(&mut v, enc.as_str());
            push_str(&mut v, "/");
            push_str(&mut v, node.hostname.as_str());
            push_str(&mut v, ":");
            push_port(&mut v, node.port);
            let r = string_of(v.as_slice());
            assert(r@ =~= mellow_line_of(*node, ext_tfo, ext_scv)->0);
            Some(r)
        },
        ProxyType::VMess => {
            let scv = match node.allow_insecure {
                Some(b) => Some(b),
                None => ext_scv,
            };
            let tfo = match node.tcp_fast_open {
                Some(b) => Some(b),
                None => ext_tfo,
            };
            let v = vmess_line(node, scv, tfo);
            Some(string_of(v.as_slice()))
        },
        ProxyType::Socks5 => {
            let v = builtin_line(node, "socks");
            Some(string_of(v.as_slice()))
        },
        ProxyType::HTTP => {
            let v = builtin_line(node, "http");
            Some(string_of(v.as_slice()))
        },
        _ => None,
    }
}

// ---------------------------------------------------------------------------
// Endpoint group lines
// ---------------------------------------------------------------------------
/// The members of an endpoint group: the nodes chosen for it
/// (`generated`), else every endpoint written (`remarks`), else `DIRECT`.
pub open spec fn mellow_members(generated: Seq<Seq<char>>, remarks: Seq<Seq<char>>) -> Seq<Seq<char>> {
    if generated.len() > 0 {
        generated
    } else if remarks.len() > 0 {
        remarks
    } else {
        seq!["DIRECT"@]
    }
}

/// The line of a group in the `EndpointGroup` section of Mellow: its name
/// and `:`-separated members, chosen by latency every 300 seconds with a
/// timeout of 6. Only selecting, testing, fallback and load-balancing
/// groups have one.
pub open spec fn mellow_group_line_of(
    g: ProxyGroupConfig,
    generated: Seq<Seq<char>>,
    remarks: Seq<Seq<char>>,
) -> Option<Seq<char>> {
    match g.group_type {
        ProxyGroupType::Select | ProxyGroupType::URLTest | ProxyGroupType::Fallback
        | ProxyGroupType::LoadBalance => Some(
            g.name@ + ", "@ + join(mellow_members(generated, remarks), ":"@)
                + ", latency, interval=300, timeout=6"@,
        ),
        _ => None,
    }
}

/// The endpoint group line of a group for Mellow (see
/// [`mellow_group_line_of`]); `generated` holds the nodes chosen for the
/// group, `remarks` the endpoints written.
pub fn mellow_group_line(group: &ProxyGroupConfig, generated: &Vec<String>, remarks: &Vec<String>) -> (r: Option<String>)
    ensures
        ov(r) == mellow_group_line_of(*group, string_views(generated@), string_views(remarks@)),
{
    match group.group_type {
        ProxyGroupType::Select | ProxyGroupType::URLTest | ProxyGroupType::Fallback
        | ProxyGroupType::LoadBalance => {
            let mut v = chars_of(group.name.as_str());
            push_str(&mut v, ", ");
            if generated.len() > 0 {
                push_joined_by(&mut v, generated, ":");
            } else if remarks.len() > 0 {
                push_joined_by(&mut v, remarks, ":");
            } else {
                push_str(&mut v, "DIRECT");
            }
            push_str(&mut v, ", latency, interval=300, timeout=6");
            let r = string_of(v.as_slice());
            assert(r@ =~= mellow_group_line_of(
                *group,
                string_views(generated@),
                string_views(remarks@),
            )->0);
            Some(r)
        },
        _ => None,
    }
}


/// Whether a group of kind `t` lists the nodes its rules choose in a
/// Mellow configuration.
pub open spec fn mellow_lists(t: ProxyGroupType) -> bool {
    t == ProxyGroupType::Select || t == ProxyGroupType::URLTest || t == ProxyGroupType::Fallback || t
        == ProxyGroupType::LoadBalance
}

/// The group lines of a Mellow configuration, one per group (see
/// [`mellow_group_line_of`]): a group that lists nodes has the members its rules
/// give it among `nodes`.
pub open spec fn mellow_group_lines_of(groups: Seq<ProxyGroupConfig>, nodes: Seq<Proxy>, remarks: Seq<Seq<char>>, authorized: bool) -> Seq<
    Option<Seq<char>>,
> {
    Seq::new(groups.len(), |i: int| mellow_group_line_of(groups[i], rule_members(groups[i], nodes, false, authorized), remarks))
}

/// The group lines of a Mellow configuration (see
/// [`mellow_group_lines_of`]). The rules of each group that lists nodes must
/// fit the nodes.
pub fn mellow_group_lines(groups: &Vec<ProxyGroupConfig>, nodes: &[Proxy], remarks: &Vec<String>, ext: &ExtraSettings) -> (r: Vec<
    Option<String>,
>)
    requires
        forall|i: int|
            0 <= i < groups@.len() && mellow_lists((#[trigger] groups@[i]).group_type) ==> group_fits(
                groups@[i],
                nodes@,
            ),
    ensures
        r@.len() == groups@.len(),
        forall|i: int|
            0 <= i < groups@.len() ==> ov(#[trigger] r@[i]) == mellow_group_lines_of(groups@, nodes@, string_views(remarks@), ext.authorized)[i],
{
    let mut r: Vec<Option<String>> = Vec::new();
    let mut i: usize = 0;
    while i < groups.len()
        invariant
            i <= groups@.len(),
            r@.len() == i,
            forall|k: int|
                0 <= k < groups@.len() && mellow_lists((#[trigger] groups@[k]).group_type) ==> group_fits(
                    groups@[k],
                    nodes@,
                ),
            forall|k: int|
                0 <= k < i ==> ov(#[trigger] r@[k]) == mellow_group_lines_of(groups@, nodes@, string_views(remarks@), ext.authorized)[k],
        decreases groups@.len() - i,
    {
        let g = &groups[i];
        let t = g.group_type;
        let members = if t == ProxyGroupType::Select || t == ProxyGroupType::URLTest || t == ProxyGroupType::Fallback
            || t == ProxyGroupType::LoadBalance {
            group_rule_members(g, nodes, false, ext)
        } else {
            Vec::new()
        };
        let line = mellow_group_line(g, &members, remarks);
        assert(ov(line) == mellow_group_lines_of(groups@, nodes@, string_views(remarks@), ext.authorized)[i as int]);
        r.push(line);
        i = i + 1;
    }
    r
}


/// A Mellow configuration: the base configuration `base` with the node
/// lines in `Endpoint`, the group lines in `EndpointGroup` and the rules in
/// `RoutingRule` (see [`client_updates`]); the base's own endpoints and groups are kept before the new ones, and the
/// base's rules are kept before the new ones unless
/// `overwrite_original_rules`.
pub fn mellow_config(
    base: &str,
    node_lines: &Vec<String>,
    group_lines: &Vec<String>,
    rules: &Vec<String>,
    overwrite_original_rules: bool,
) -> (r: String)
    ensures
        r@ == ini_text_of(
            with_sections(
                ini_sections(base@),
                client_updates(
                    ini_sections(base@),
                    "Endpoint"@,
                    true,
                    string_views(node_lines@),
                    "EndpointGroup"@,
                    true,
                    string_views(group_lines@),
                    "RoutingRule"@,
                    string_views(rules@),
                    None,
                    Seq::empty(),
                    overwrite_original_rules,
                ),
            ),
        ),
{
    let none: Vec<String> = Vec::new();
    assert(string_views(none@) =~= Seq::<Seq<char>>::empty());
    client_config(
        base,
        "Endpoint",
        true,
        node_lines,
        "EndpointGroup",
        true,
        group_lines,
        "RoutingRule",
        rules,
        None,
        &none,
        overwrite_original_rules,
    )
}

} // verus!

//! Single-node share links (`ss://`, `ssr://`, `vmess://`, `trojan://`).
use super::mellow::{b64_text, url_text};
use super::surge::{text_field, txt, txt_exec};
use crate::models::extra_settings::ExtraSettings;
use crate::models::proxy::{Proxy, ProxyType};
use crate::text::{chars_of, eq_str, nat_decimal, push_all, push_str, string_of, string_views, u64_decimal};
use crate::utils::base64::{base64, base64_encode, url_safe_base64_encode};
use crate::utils::url::url_encode;
use vstd::prelude::*;
use vstd::utf8::encode_utf8;

verus! {

/// The kinds of link to write; a node of another kind is left out.
#[derive(Debug, Clone, Copy, PartialEq, Eq, Structural)]
pub struct ProxyUriTypes {
    /// Shadowsocks links.
    pub ss: bool,
    /// ShadowsocksR links.
    pub ssr: bool,
    /// VMess links.
    pub vmess: bool,
    /// Trojan links.
    pub trojan: bool,
}

impl ProxyUriTypes {
    /// Every kind of link.
    pub fn mixed() -> (r: Self)
        ensures
            r.ss && r.ssr && r.vmess && r.trojan,
    {
        ProxyUriTypes { ss: true, ssr: true, vmess: true, trojan: true }
    }
}

// ---------------------------------------------------------------------------
// JSON text
// ---------------------------------------------------------------------------
/// The lower-case hexadecimal digit of a value below 16.
pub open spec fn hex_lower(v: int) -> char {
    if v < 10 {
        (48 + v) as char
    } else {
        (87 + v) as char
    }
}

/// A character as written inside a JSON string: quote, backslash and the
/// controls below U+0020 escaped (the usual short forms where JSON has one,
/// else `\u00` and two hexadecimal digits), every other character as it is.
pub open spec fn json_escape(c: char) -> Seq<char> {
    if c == '"' {
        seq!['\\', '"']
    } else if c == '\\' {
        seq!['\\', '\\']
    } else if c == '\u{8}' {
        seq!['\\', 'b']
    } else if c == '\t' {
        seq!['\\', 't']
    } else if c == '\n' {
        seq!['\\', 'n']
    } else if c == '\u{c}' {
        seq!['\\', 'f']
    } else if c == '\r' {
        seq!['\\', 'r']
    } else if (c as int) < 32 {
        seq!['\\', 'u', '0', '0', hex_lower(c as int / 16), hex_lower(c as int % 16)]
    } else {
        seq![c]
    }
}

/// The escaped characters of a text (see [`json_escape`]).
pub open spec fn json_chars(s: Seq<char>) -> Seq<char>
    decreases s.len(),
{
    if s.len() == 0 {
        Seq::empty()
    } else {
        json_escape(s[0]) + json_chars(s.skip(1))
    }
}

/// A text as a JSON string.
pub open spec fn json_string(s: Seq<char>) -> Seq<char> {
    seq!['"'] + json_chars(s) + seq!['"']
}

/// A member of a JSON object: the key and the value as JSON strings,
/// joined by `:`.
pub open spec fn member(m: (Seq<char>, Seq<char>)) -> Seq<char> {
    json_string(m.0) + seq![':'] + json_string(m.1)
}

/// The members of a JSON object with string values, comma-separated.
pub open spec fn json_members(ms: Seq<(Seq<char>, Seq<char>)>) -> Seq<char>
    decreases ms.len(),
{
    if ms.len() == 0 {
        Seq::empty()
    } else if ms.len() == 1 {
        member(ms[0])
    } else {
        json_members(ms.drop_last()) + seq![','] + member(ms.last())
    }
}

/// A JSON object with string values, written compactly in the given order.
pub open spec fn json_object(ms: Seq<(Seq<char>, Seq<char>)>) -> Seq<char> {
    seq!['{'] + json_members(ms) + seq!['}']
}

/// The members of the JSON object of a VMess link, in the order of their
/// keys (as `serde_json` keeps an object's members): address, alter id,
/// host, id, network, path, port, remark, TLS, the camouflage type where
/// there is one, and version 2.
pub open spec fn vmess_fields(
    remark: Seq<char>,
    hostname: Seq<char>,
    port: u16,
    fake_type: Option<Seq<char>>,
    user_id: Seq<char>,
    alter_id: u16,
    transfer_protocol: Seq<char>,
    path: Seq<char>,
    host: Seq<char>,
    tls: Seq<char>,
) -> Seq<(Seq<char>, Seq<char>)> {
    seq![
        ("add"@, hostname),
        ("aid"@, nat_decimal(alter_id as nat)),
        ("host"@, host),
        ("id"@, user_id),
        ("net"@, transfer_protocol),
        ("path"@, path),
        ("port"@, nat_decimal(port as nat)),
        ("ps"@, remark),
        ("tls"@, tls),
    ] + (match fake_type {
        Some(t) => seq![("type"@, t)],
        None => Seq::empty(),
    }) + seq![("v"@, "2"@)]
}

/// Whether `a` comes before `b` in the order of `String` (character by
/// character, a proper prefix first).
pub open spec fn text_lt(a: Seq<char>, b: Seq<char>) -> bool
    decreases a.len(),
{
    if b.len() == 0 {
        false
    } else if a.len() == 0 {
        true
    } else if a[0] != b[0] {
        (a[0] as u32) < (b[0] as u32)
    } else {
        text_lt(a.skip(1), b.skip(1))
    }
}

/// The keys of `ms` are in strictly ascending order.
pub open spec fn keys_ascending(ms: Seq<(Seq<char>, Seq<char>)>) -> bool {
    forall|i: int| 0 <= i < ms.len() - 1 ==> text_lt(#[trigger] ms[i].0, ms[i + 1].0)
}

/// A JSON object with string values, written by `serde_json::to_string` of
/// a `serde_json::Map` that holds the pairs `ms`. Without the
/// `preserve_order` feature (not enabled here) a `Map` is a `BTreeMap`,
/// which gives its members in the order of their keys; the compact
/// serializer writes `{`, each member as key and value in JSON strings
/// joined by `:`, `,` between members, and `}`, and a map of strings never
/// fails to serialise. With the keys already strictly ascending that is
/// [`json_object`] of `ms`.
#[verifier::external_body]
pub(crate) fn json_object_text(ms: &Vec<(String, String)>) -> (r: String)
    requires
        keys_ascending(crate::text::pair_views(ms@)),
    ensures
        r@ == json_object(crate::text::pair_views(ms@)),
{
    let map: serde_json::Map<String, serde_json::Value> = ms.iter().map(
        |(k, v)| (k.clone(), serde_json::Value::String(v.clone())),
    ).collect();
    serde_json::to_string(&serde_json::Value::Object(map)).unwrap_or_default()
}

/// The keys of a VMess link's object are in ascending order.
proof fn lemma_vmess_keys_ascending(
    remark: Seq<char>,
    hostname: Seq<char>,
    port: u16,
    fake_type: Option<Seq<char>>,
    user_id: Seq<char>,
    alter_id: u16,
    transfer_protocol: Seq<char>,
    path: Seq<char>,
    host: Seq<char>,
    tls: Seq<char>,
)
    ensures
        keys_ascending(
            vmess_fields(
                remark,
                hostname,
                port,
                fake_type,
                user_id,
                alter_id,
                transfer_protocol,
                path,
                host,
                tls,
            ),
        ),
{
    lemma_vmess_key_order();
    let ms = vmess_fields(remark, hostname, port, fake_type, user_id, alter_id, transfer_protocol, path, host, tls);
    assert forall|i: int| 0 <= i < ms.len() - 1 implies text_lt(#[trigger] ms[i].0, ms[i + 1].0) by {
        if fake_type is Some {
            assert(ms.len() == 11);
        } else {
            assert(ms.len() == 10);
        }
    }
}

/// The order of the keys of a VMess link's object.
pub(crate) proof fn lemma_vmess_key_order()
    ensures
        text_lt("add"@, "aid"@),
        text_lt("aid"@, "host"@),
        text_lt("host"@, "id"@),
        text_lt("id"@, "net"@),
        text_lt("net"@, "path"@),
        text_lt("path"@, "port"@),
        text_lt("port"@, "ps"@),
        text_lt("ps"@, "tls"@),
        text_lt("tls"@, "type"@),
        text_lt("tls"@, "v"@),
        text_lt("type"@, "v"@),
{
    reveal_strlit("add");
    reveal_strlit("aid");
    reveal_strlit("host");
    reveal_strlit("id");
    reveal_strlit("net");
    reveal_strlit("path");
    reveal_strlit("port");
    reveal_strlit("ps");
    reveal_strlit("tls");
    reveal_strlit("type");
    reveal_strlit("v");
    reveal_with_fuel(text_lt, 3);
    assert("add"@.skip(1) =~= seq!['d', 'd']);
    assert("aid"@.skip(1) =~= seq!['i', 'd']);
    assert("path"@.skip(1) =~= seq!['a', 't', 'h']);
    assert("port"@.skip(1) =~= seq!['o', 'r', 't']);
    assert("ps"@.skip(1) =~= seq!['s']);
    assert("tls"@.skip(1) =~= seq!['l', 's']);
    assert("type"@.skip(1) =~= seq!['y', 'p', 'e']);
}

/// The JSON object of a VMess link (see [`vmess_fields`]).
pub fn vmess_link_construct(
    remark: &str,
    hostname: &str,
    port: u16,
    fake_type: Option<&str>,
    user_id: &str,
    alter_id: u16,
    transfer_protocol: &str,
    path: &str,
    host: &str,
    tls: &str,
) -> (r: String)
    ensures
        r@ == json_object(
            vmess_fields(
                remark@,
                hostname@,
                port,
                match fake_type {
                    Some(t) => Some(t@),
                    None => None,
                },
                user_id@,
                alter_id,
                transfer_protocol@,
                path@,
                host@,
                tls@,
            ),
        ),
{
    let aid = u64_decimal(alter_id as u64);
    let p = u64_decimal(port as u64);
    let mut ms: Vec<(String, String)> = Vec::new();
    ms.push(("add".to_owned(), hostname.to_owned()));
    ms.push(("aid".to_owned(), string_of(aid.as_slice())));
    ms.push(("host".to_owned(), host.to_owned()));
    ms.push(("id".to_owned(), user_id.to_owned()));
    ms.push(("net".to_owned(), transfer_protocol.to_owned()));
    ms.push(("path".to_owned(), path.to_owned()));
    ms.push(("port".to_owned(), string_of(p.as_slice())));
    ms.push(("ps".to_owned(), remark.to_owned()));
    ms.push(("tls".to_owned(), tls.to_owned()));
    match fake_type {
        Some(t) => {
            ms.push(("type".to_owned(), t.to_owned()));
        },
        None => {},
    }
    ms.push(("v".to_owned(), "2".to_owned()));
    assert(crate::text::pair_views(ms@) =~= vmess_fields(
        remark@,
        hostname@,
        port,
        match fake_type {
            Some(t) => Some(t@),
            None => None,
        },
        user_id@,
        alter_id,
        transfer_protocol@,
        path@,
        host@,
        tls@,
    ));
    proof {
        lemma_vmess_keys_ascending(
            remark@,
            hostname@,
            port,
            match fake_type {
                Some(t) => Some(t@),
                None => None,
            },
            user_id@,
            alter_id,
            transfer_protocol@,
            path@,
            host@,
            tls@,
        );
    }
    json_object_text(&ms)
}

// ---------------------------------------------------------------------------
// Links
// ---------------------------------------------------------------------------
/// `host:port` of a node.
pub open spec fn host_port(n: Proxy) -> Seq<char> {
    n.hostname@ + ":"@ + nat_decimal(n.port as nat)
}

/// The `ss://` link of a node without plugin or remark.
pub open spec fn ss_link(n: Proxy) -> Seq<char> {
    "ss://"@ + b64_text(txt(n.encrypt_method) + ":"@ + txt(n.password)) + "@"@ + host_port(n)
}

/// The `ssr://` link of a ShadowsocksR setting of a node.
pub open spec fn ssr_link(n: Proxy, protocol: Seq<char>, obfs: Seq<char>, params: Seq<char>) -> Seq<char> {
    "ssr://"@ + b64_text(
        host_port(n) + ":"@ + protocol + ":"@ + txt(n.encrypt_method) + ":"@ + obfs + ":"@ + b64_text(
            txt(n.password),
        ) + "/?group="@ + b64_text(n.group@) + "&remarks="@ + b64_text(n.remark@) + params,
    )
}

/// The JSON object of the VMess link of a node.
pub open spec fn node_vmess_json(n: Proxy) -> Seq<char> {
    json_object(
        vmess_fields(
            n.remark@,
            n.hostname@,
            n.port,
            match n.fake_type {
                Some(t) => Some(t@),
                None => None,
            },
            txt(n.user_id),
            n.alter_id,
            txt(n.transfer_protocol),
            txt(n.path),
            txt(n.host),
            if n.tls_secure {
                "tls"@
            } else {
                Seq::empty()
            },
        ),
    )
}

/// The Trojan link of a node.
pub open spec fn trojan_link(n: Proxy) -> Seq<char> {
    "trojan://"@ + txt(n.password) + "@"@ + host_port(n) + "?allowInsecure="@ + (if n.allow_insecure
        == Some(true) {
        "1"@
    } else {
        "0"@
    }) + text_field("&sni="@, txt(n.host)) + (if txt(n.transfer_protocol) == "ws"@ {
        "&ws=1"@ + if txt(n.path).len() > 0 {
            "&wspath="@ + url_text(txt(n.path))
        } else {
            Seq::empty()
        }
    } else {
        Seq::empty()
    }) + "#"@ + url_text(n.remark@)
}

/// The share link of a node among the kinds `types`; `None` where it has
/// none. A Shadowsocks node becomes an `ssr://` link where only those are
/// asked for, its cipher is one of `ssr_ciphers` and it has no plugin; a
/// ShadowsocksR node becomes an `ss://` link where only those are asked
/// for, its cipher is one of `ss_ciphers` and it uses neither protocol nor
/// obfuscation.
pub open spec fn single_line_of(
    n: Proxy,
    types: ProxyUriTypes,
    ss_ciphers: Seq<Seq<char>>,
    ssr_ciphers: Seq<Seq<char>>,
) -> Option<Seq<char>> {
    let method = txt(n.encrypt_method);
    let plugin = txt(n.plugin);
    let opts = txt(n.plugin_option);
    match n.proxy_type {
        ProxyType::Shadowsocks => if types.ss {
            Some(
                ss_link(n) + (if plugin.len() > 0 && opts.len() > 0 {
                    "/?plugin="@ + url_text(plugin + ";"@ + opts)
                } else {
                    Seq::empty()
                }) + "#"@ + url_text(n.remark@),
            )
        } else if types.ssr && ssr_ciphers.contains(method) && plugin.len() == 0 {
            Some(ssr_link(n, "origin"@, "plain"@, Seq::empty()))
        } else {
            None
        },
        ProxyType::ShadowsocksR => if types.ssr {
            Some(
                ssr_link(
                    n,
                    txt(n.protocol),
                    txt(n.obfs),
                    "&obfsparam="@ + b64_text(txt(n.obfs_param)) + "&protoparam="@ + b64_text(
                        txt(n.protocol_param),
                    ),
                ),
            )
        } else if types.ss && ss_ciphers.contains(method) && txt(n.protocol) == "origin"@ && txt(n.obfs)
            == "plain"@ {
            Some(ss_link(n) + "#"@ + url_text(n.remark@))
        } else {
            None
        },
        ProxyType::VMess => if types.vmess {
            Some("vmess://"@ + base64(encode_utf8(node_vmess_json(n))))
        } else {
            None
        },
        ProxyType::Trojan => if types.trojan {
            Some(trojan_link(n))
        } else {
            None
        },
        _ => None,
    }
}

/// Whether `list` holds the text `s`.
fn has_text(list: &Vec<String>, s: &[char]) -> (r: bool)
    ensures
        r == string_views(list@).contains(s@),
{
    let mut i: usize = 0;
    while i < list.len()
        invariant
            i <= list@.len(),
            forall|j: int| 0 <= j < i ==> list@[j]@ != s@,
        decreases list@.len() - i,
    {
        let c = chars_of(list[i].as_str());
        if crate::text::chars_eq(c.as_slice(), s) {
            assert(string_views(list@)[i as int] == s@);
            return true;
        }
        i = i + 1;
    }
    assert forall|j: int| 0 <= j < string_views(list@).len() implies string_views(list@)[j] != s@ by {
        assert(string_views(list@)[j] == list@[j]@);
    }
    false
}

/// Appends a text in URL-safe base64 (see [`b64_text`]).
fn push_b64(v: &mut Vec<char>, t: &[char])
    ensures
        final(v)@ == old(v)@ + b64_text(t@),
{
    let s = string_of(t);
    let e = url_safe_base64_encode(s.as_str());
    push_str(v, e.as_str());
}

/// Appends a text percent-encoded (see [`url_text`]).
fn push_url(v: &mut Vec<char>, t: &[char])
    ensures
        final(v)@ == old(v)@ + url_text(t@),
{
    let s = string_of(t);
    let e = url_encode(s.as_str());
    push_str(v, e.as_str());
}

/// Appends `host:port` of a node.
fn push_host_port(v: &mut Vec<char>, n: &Proxy)
    ensures
        final(v)@ == old(v)@ + host_port(*n),
{
    push_str(v, n.hostname.as_str());
    push_str(v, ":");
    let p = u64_decimal(n.port as u64);
    push_all(v, p.as_slice());
    assert(v@ =~= old(v)@ + host_port(*n));
}

/// The `ss://` link of a node without plugin or remark (see [`ss_link`]).
pub(crate) fn ss_link_exec(n: &Proxy) -> (r: Vec<char>)
    ensures
        r@ == ss_link(*n),
{
    let mut cred = txt_exec(&n.encrypt_method);
    push_str(&mut cred, ":");
    let password = txt_exec(&n.password);
    push_all(&mut cred, password.as_slice());
    let mut v = chars_of("ss://");
    push_b64(&mut v, cred.as_slice());
    push_str(&mut v, "@");
    push_host_port(&mut v, n);
    assert(v@ =~= ss_link(*n));
    v
}

/// The `ssr://` link of a ShadowsocksR setting (see [`ssr_link`]).
pub(crate) fn ssr_link_exec(n: &Proxy, protocol: &[char], obfs: &[char], params: &[char]) -> (r: Vec<char>)
    ensures
        r@ == ssr_link(*n, protocol@, obfs@, params@),
{
    let mut inner: Vec<char> = Vec::new();
    push_host_port(&mut inner, n);
    push_str(&mut inner, ":");
    push_all(&mut inner, protocol);
    push_str(&mut inner, ":");
    let method = txt_exec(&n.encrypt_method);
    push_all(&mut inner, method.as_slice());
    push_str(&mut inner, ":");
    push_all(&mut inner, obfs);
    push_str(&mut inner, ":");
    let password = txt_exec(&n.password);
    push_b64(&mut inner, password.as_slice());
    push_str(&mut inner, "/?group=");
    let group = chars_of(n.group.as_str());
    push_b64(&mut inner, group.as_slice());
    push_str(&mut inner, "&remarks=");
    let remark = chars_of(n.remark.as_str());
    push_b64(&mut inner, remark.as_slice());
    push_all(&mut inner, params);
    let mut v = chars_of("ssr://");
    push_b64(&mut v, inner.as_slice());
    assert(v@ =~= ssr_link(*n, protocol@, obfs@, params@));
    v
}

/// The Trojan link of a node (see [`trojan_link`]).
fn trojan_link_exec(n: &Proxy) -> (r: Vec<char>)
    ensures
        r@ == trojan_link(*n),
{
    let mut v = chars_of("trojan://");
    let password = txt_exec(&n.password);
    push_all(&mut v, password.as_slice());
    push_str(&mut v, "@");
    push_host_port(&mut v, n);
    push_str(&mut v, "?allowInsecure=");
    let insecure = match n.allow_insecure {
        Some(b) => b,
        None => false,
    };
    push_str(&mut v, if insecure { "1" } else { "0" });
    let host = txt_exec(&n.host);
    super::surge::push_text(&mut v, "&sni=", host.as_slice());
    let proto = txt_exec(&n.transfer_protocol);
    let ghost w0 = v@;
    if eq_str(proto.as_slice(), "ws") {
        push_str(&mut v, "&ws=1");
        let path = txt_exec(&n.path);
        if path.len() > 0 {
            push_str(&mut v, "&wspath=");
            push_url(&mut v, path.as_slice());
        }
    }
    assert(v@ =~= w0 + (if txt(n.transfer_protocol) == "ws"@ {
        "&ws=1"@ + if txt(n.path).len() > 0 {
            "&wspath="@ + url_text(txt(n.path))
        } else {
            Seq::empty()
        }
    } else {
        Seq::empty()
    }));
    push_str(&mut v, "#");
    let remark = chars_of(n.remark.as_str());
    push_url(&mut v, remark.as_slice());
    assert(v@ =~= trojan_link(*n));
    v
}

/// The share link of a node (see [`single_line_of`]).
pub fn single_link(
    node: &Proxy,
    types: ProxyUriTypes,
    ss_ciphers: &Vec<String>,
    ssr_ciphers: &Vec<String>,
) -> (r: Option<String>)
    ensures
        crate::text::ov(r) == single_line_of(*node, types, string_views(ss_ciphers@), string_views(ssr_ciphers@)),
{
    let method = txt_exec(&node.encrypt_method);
    let plugin = txt_exec(&node.plugin);
    let remark = chars_of(node.remark.as_str());
    match node.proxy_type {
        ProxyType::Shadowsocks => {
            if types.ss {
                let mut v = ss_link_exec(node);
                let opts = txt_exec(&node.plugin_option);
                if plugin.len() > 0 && opts.len() > 0 {
                    push_str(&mut v, "/?plugin=");
                    let mut po = plugin.clone();
                    push_str(&mut po, ";");
                    push_all(&mut po, opts.as_slice());
                    push_url(&mut v, po.as_slice());
                }
                push_str(&mut v, "#");
                push_url(&mut v, remark.as_slice());
                let r = string_of(v.as_slice());
                assert(r@ =~= single_line_of(
                    *node,
                    types,
                    string_views(ss_ciphers@),
                    string_views(ssr_ciphers@),
                )->0);
                Some(r)
            } else if types.ssr && has_text(ssr_ciphers, method.as_slice()) && plugin.len() == 0 {
                let origin = chars_of("origin");
                let plain = chars_of("plain");
                let none: Vec<char> = Vec::new();
                let v = ssr_link_exec(node, origin.as_slice(), plain.as_slice(), none.as_slice());
                Some(string_of(v.as_slice()))
            } else {
                None
            }
        },
        ProxyType::ShadowsocksR => {
            let protocol = txt_exec(&node.protocol);
            let obfs = txt_exec(&node.obfs);
            if types.ssr {
                let mut params = chars_of("&obfsparam=");
                let op = txt_exec(&node.obfs_param);
                push_b64(&mut params, op.as_slice());
                push_str(&mut params, "&protoparam=");
                let pp = txt_exec(&node.protocol_param);
                push_b64(&mut params, pp.as_slice());
                let v = ssr_link_exec(node, protocol.as_slice(), obfs.as_slice(), params.as_slice());
                Some(string_of(v.as_slice()))
            } else if types.ss && has_text(ss_ciphers, method.as_slice()) && eq_str(
                protocol.as_slice(),
                "origin",
            ) && eq_str(obfs.as_slice(), "plain") {
                let mut v = ss_link_exec(node);
                push_str(&mut v, "#");
                push_url(&mut v, remark.as_slice());
                Some(string_of(v.as_slice()))
            } else {
                None
            }
        },
        ProxyType::VMess => {
            if types.vmess {
                let fake = match &node.fake_type {
                    Some(t) => Some(t.as_str()),
                    None => None,
                };
                let id = txt_exec(&node.user_id);
                let ids = string_of(id.as_slice());
                let net = txt_exec(&node.transfer_protocol);
                let nets = string_of(net.as_slice());
                let path = txt_exec(&node.path);
                let paths = string_of(path.as_slice());
                let host = txt_exec(&node.host);
                let hosts = string_of(host.as_slice());
                let tls = if node.tls_secure { "tls" } else { "" };
                proof {
                    reveal_strlit("");
                }
                assert(tls@ =~= (if node.tls_secure {
                    "tls"@
                } else {
                    Seq::empty()
                }));
                let ghost fv = match fake {
                    Some(t) => Some(t@),
                    None => None,
                };
                assert(fv == match node.fake_type {
                    Some(t) => Some(t@),
                    None => None,
                });
                let json = vmess_link_construct(
                    node.remark.as_str(),
                    node.hostname.as_str(),
                    node.port,
                    fake,
                    ids.as_str(),
                    node.alter_id,
                    nets.as_str(),
                    paths.as_str(),
                    hosts.as_str(),
                    tls,
                );
                let enc = base64_encode(json.as_str());
                let mut v = chars_of("vmess://");
                push_str(&mut v, enc.as_str());
                assert(json@ == node_vmess_json(*node));
                Some(string_of(v.as_slice()))
            } else {
                None
            }
        },
        ProxyType::Trojan => {
            if types.trojan {
                let v = trojan_link_exec(node);
                Some(string_of(v.as_slice()))
            } else {
                None
            }
        },
        _ => None,
    }
}

/// The share links of nodes, each on a line of its own.
pub open spec fn single_links(
    nodes: Seq<Proxy>,
    types: ProxyUriTypes,
    ss_ciphers: Seq<Seq<char>>,
    ssr_ciphers: Seq<Seq<char>>,
) -> Seq<char>
    decreases nodes.len(),
{
    if nodes.len() == 0 {
        Seq::empty()
    } else {
        single_links(nodes.drop_last(), types, ss_ciphers, ssr_ciphers) + match single_line_of(
            nodes.last(),
            types,
            ss_ciphers,
            ssr_ciphers,
        ) {
            Some(l) => l + seq!['\n'],
            None => Seq::empty(),
        }
    }
}

/// The share links of the nodes (see [`single_links`]), as they are where
/// only a node list is asked for (`ext.nodelist`), else in base64 as a
/// subscription; `ss_ciphers` and `ssr_ciphers` are the ciphers each
/// protocol takes.
pub fn proxy_to_single(
    nodes: &Vec<Proxy>,
    types: ProxyUriTypes,
    ext: &ExtraSettings,
    ss_ciphers: &Vec<String>,
    ssr_ciphers: &Vec<String>,
) -> (r: String)
    ensures
        r@ == (if ext.nodelist {
            single_links(nodes@, types, string_views(ss_ciphers@), string_views(ssr_ciphers@))
        } else {
            base64(
                encode_utf8(
                    single_links(nodes@, types, string_views(ss_ciphers@), string_views(ssr_ciphers@)),
                ),
            )
        }),
{
    let ghost ssc = string_views(ss_ciphers@);
    let ghost ssrc = string_views(ssr_ciphers@);
    let mut all: Vec<char> = Vec::new();
    let mut i: usize = 0;
    assert(nodes@.take(0) =~= Seq::<Proxy>::empty());
    while i < nodes.len()
        invariant
            i <= nodes@.len(),
            ssc == string_views(ss_ciphers@),
            ssrc == string_views(ssr_ciphers@),
            all@ == single_links(nodes@.take(i as int), types, ssc, ssrc),
        decreases nodes@.len() - i,
    {
        assert(nodes@.take(i + 1).drop_last() =~= nodes@.take(i as int));
        assert(nodes@.take(i + 1).last() == nodes@[i as int]);
        match single_link(&nodes[i], types, ss_ciphers, ssr_ciphers) {
            Some(l) => {
                push_str(&mut all, l.as_str());
                all.push('\n');
            },
            None => {},
        }
        assert(all@ =~= single_links(nodes@.take(i + 1), types, ssc, ssrc));
        i = i + 1;
    }
    assert(nodes@.take(i as int) =~= nodes@);
    let links = string_of(all.as_slice());
    if ext.nodelist {
        links
    } else {
        base64_encode(links.as_str())
    }
}

} // verus!

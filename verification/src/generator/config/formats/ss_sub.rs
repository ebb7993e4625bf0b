//! The SIP008 Shadowsocks subscription: which nodes it carries and with
//! which settings.
use super::surge::{txt, txt_exec};
use crate::models::proxy::{Proxy, ProxyType};
use crate::text::{eq_str, string_of, string_views};
use vstd::prelude::*;

verus! {

/// A server of a SIP008 subscription.
#[derive(Debug, Clone)]
pub struct Sip008Server {
    pub remarks: String,
    pub server: String,
    pub server_port: u16,
    pub method: String,
    pub password: String,
    pub plugin: String,
    pub plugin_opts: String,
}

/// Whether SIP008 carries a node: every Shadowsocks node, and a
/// ShadowsocksR node whose cipher is one of `ss_ciphers` and which uses
/// protocol `origin` and obfuscation `plain`.
pub open spec fn sip008_selected(n: Proxy, ss_ciphers: Seq<Seq<char>>) -> bool {
    ||| n.proxy_type == ProxyType::Shadowsocks
    ||| (n.proxy_type == ProxyType::ShadowsocksR && ss_ciphers.contains(txt(n.encrypt_method)) && txt(
        n.protocol,
    ) == "origin"@ && txt(n.obfs) == "plain"@)
}

/// The nodes that SIP008 carries, in order.
pub open spec fn sip008_selection(nodes: Seq<Proxy>, ss_ciphers: Seq<Seq<char>>) -> Seq<Proxy>
    decreases nodes.len(),
{
    if nodes.len() == 0 {
        Seq::empty()
    } else if sip008_selected(nodes.last(), ss_ciphers) {
        sip008_selection(nodes.drop_last(), ss_ciphers).push(nodes.last())
    } else {
        sip008_selection(nodes.drop_last(), ss_ciphers)
    }
}

/// The server of a carried node: its remark, server, port, cipher,
/// password, plugin (a Shadowsocks node's `simple-obfs` written as
/// `obfs-local`) and plugin options, unset texts empty.
pub open spec fn sip008_entry(e: Sip008Server, n: Proxy) -> bool {
    &&& e.remarks@ == n.remark@
    &&& e.server@ == n.hostname@
    &&& e.server_port == n.port
    &&& e.method@ == txt(n.encrypt_method)
    &&& e.password@ == txt(n.password)
    &&& e.plugin@ == (if n.proxy_type == ProxyType::Shadowsocks && txt(n.plugin) == "simple-obfs"@ {
        "obfs-local"@
    } else {
        txt(n.plugin)
    })
    &&& e.plugin_opts@ == txt(n.plugin_option)
}

/// Whether `list` holds the text `s`.
fn holds(list: &Vec<String>, s: &[char]) -> (r: bool)
    ensures
        r == string_views(list@).contains(s@),
{
    let mut i: usize = 0;
    while i < list.len()
        invariant
            i <= list@.len(),
            forall|j: int| 0 <= j < i ==> list@[j]@ != s@,
        decreases list@.len() - i,
    {
        let c = crate::text::chars_of(list[i].as_str());
        if crate::text::chars_eq(c.as_slice(), s) {
            assert(string_views(list@)[i as int] == s@);
            return true;
        }
        i = i + 1;
    }
    assert forall|j: int| 0 <= j < string_views(list@).len() implies string_views(list@)[j] != s@ by {
        assert(string_views(list@)[j] == list@[j]@);
    }
    false
}

/// The servers of a SIP008 subscription for the nodes (see
/// [`sip008_selection`] and [`sip008_entry`]).
pub fn sip008_servers(nodes: &Vec<Proxy>, ss_ciphers: &Vec<String>) -> (r: Vec<Sip008Server>)
    ensures
        r@.len() == sip008_selection(nodes@, string_views(ss_ciphers@)).len(),
        forall|i: int|
            0 <= i < r@.len() ==> sip008_entry(
                #[trigger] r@[i],
                sip008_selection(nodes@, string_views(ss_ciphers@))[i],
            ),
{
    let ghost sc = string_views(ss_ciphers@);
    let mut out: Vec<Sip008Server> = Vec::new();
    let mut i: usize = 0;
    assert(nodes@.take(0) =~= Seq::<Proxy>::empty());
    while i < nodes.len()
        invariant
            i <= nodes@.len(),
            sc == string_views(ss_ciphers@),
            out@.len() == sip008_selection(nodes@.take(i as int), sc).len(),
            forall|k: int|
                0 <= k < out@.len() ==> sip008_entry(
                    #[trigger] out@[k],
                    sip008_selection(nodes@.take(i as int), sc)[k],
                ),
        decreases nodes@.len() - i,
    {
        assert(nodes@.take(i + 1).drop_last() =~= nodes@.take(i as int));
        assert(nodes@.take(i + 1).last() == nodes@[i as int]);
        let n = &nodes[i];
        let method = txt_exec(&n.encrypt_method);
        let protocol = txt_exec(&n.protocol);
        let obfs = txt_exec(&n.obfs);
        let selected = n.proxy_type == ProxyType::Shadowsocks || (n.proxy_type
            == ProxyType::ShadowsocksR && holds(ss_ciphers, method.as_slice()) && eq_str(
            protocol.as_slice(),
            "origin",
        ) && eq_str(obfs.as_slice(), "plain"));
        if selected {
            let plugin = txt_exec(&n.plugin);
            let plugin_name = if n.proxy_type == ProxyType::Shadowsocks && eq_str(
                plugin.as_slice(),
                "simple-obfs",
            ) {
                "obfs-local".to_owned()
            } else {
                string_of(plugin.as_slice())
            };
            let password = txt_exec(&n.password);
            let opts = txt_exec(&n.plugin_option);
            let ghost before = out@;
            out.push(
                Sip008Server {
                    remarks: n.remark.clone(),
                    server: n.hostname.clone(),
                    server_port: n.port,
                    method: string_of(method.as_slice()),
                    password: string_of(password.as_slice()),
                    plugin: plugin_name,
                    plugin_opts: string_of(opts.as_slice()),
                },
            );
            assert forall|k: int| 0 <= k < out@.len() implies sip008_entry(
                #[trigger] out@[k],
                sip008_selection(nodes@.take(i + 1), sc)[k],
            ) by {
                if k < out@.len() - 1 {
                    assert(out@[k] == before[k]);
                }
            }
        }
        i = i + 1;
    }
    assert(nodes@.take(i as int) =~= nodes@);
    out
}

} // verus!

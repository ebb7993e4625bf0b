//! Shadowsocks proxies in a Clash configuration.
use super::common_proxy_options::{common_of, proxy_common, CommonProxyOptions};
use crate::models::proxy::Proxy;
use crate::models::proxy_node::CombinedProxy;
use crate::text::{pair_views, parse_opts, parse_opts_exec};
use vstd::prelude::*;

verus! {

/// A Shadowsocks proxy. Plugin options are key-value pairs, each key once.
#[derive(Debug, Clone)]
pub struct ShadowsocksProxy {
    pub common: CommonProxyOptions,
    pub cipher: Option<String>,
    pub password: Option<String>,
    pub plugin: Option<String>,
    pub plugin_opts: Option<Vec<(String, String)>>,
    pub udp_over_tcp: Option<bool>,
    pub udp_over_tcp_version: Option<u8>,
}

/// The views of optional key-value pairs.
pub open spec fn opt_pairs(o: Option<Vec<(String, String)>>) -> Option<Seq<(Seq<char>, Seq<char>)>> {
    match o {
        Some(v) => Some(pair_views(v@)),
        None => None,
    }
}

/// The settings parsed from an optional option string.
pub open spec fn parsed_opts(o: Option<String>) -> Option<Seq<(Seq<char>, Seq<char>)>> {
    match o {
        Some(s) => Some(parse_opts(s@)),
        None => None,
    }
}

impl ShadowsocksProxy {
    /// `r` holds `common` and leaves every other option unset.
    pub open spec fn bare(r: Self, common: CommonProxyOptions) -> bool {
        &&& r.common == common
        &&& r.cipher is None
        &&& r.password is None
        &&& r.plugin is None
        &&& r.plugin_opts is None
        &&& r.udp_over_tcp is None
        &&& r.udp_over_tcp_version is None
    }

    /// A Shadowsocks proxy with the given common options and nothing else set.
    pub fn new(common: CommonProxyOptions) -> (r: Self)
        ensures
            Self::bare(r, common),
    {
        Self {
            common,
            cipher: None,
            password: None,
            plugin: None,
            plugin_opts: None,
            udp_over_tcp: None,
            udp_over_tcp_version: None,
        }
    }

    /// `r` is the conversion of `proxy` (see [`Self::from_proxy`]).
    pub open spec fn made_from(r: Self, proxy: Proxy) -> bool {
        &&& r.common == proxy_common(proxy)
        &&& r.cipher == proxy.encrypt_method
        &&& r.password == proxy.password
        &&& r.plugin == proxy.plugin
        &&& opt_pairs(r.plugin_opts) == parsed_opts(proxy.plugin_option)
        &&& r.udp_over_tcp == (match proxy.combined_proxy {
            Some(CombinedProxy::Shadowsocks(ss)) => ss.udp_over_tcp,
            _ => None
        })
        &&& r.udp_over_tcp_version == (match proxy.combined_proxy {
            Some(CombinedProxy::Shadowsocks(ss)) => ss.udp_over_tcp_version,
            _ => None
        })
    }

    /// The Shadowsocks proxy for a node: plugin options are parsed from the
    /// node's `;`-separated `key=value` string; UDP-over-TCP comes from the
    /// node's Shadowsocks details when it has them.
    pub fn from_proxy(proxy: Proxy) -> (r: Self)
        ensures
            Self::made_from(r, proxy),
    {
        let mut ss = ShadowsocksProxy::new(common_of(&proxy));
        ss.cipher = proxy.encrypt_method;
        ss.password = proxy.password;
        ss.plugin = proxy.plugin;
        if let Some(opts) = &proxy.plugin_option {
            ss.plugin_opts = Some(parse_opts_exec(opts));
        }
        if let Some(CombinedProxy::Shadowsocks(node)) = &proxy.combined_proxy {
            ss.udp_over_tcp = node.udp_over_tcp;
            ss.udp_over_tcp_version = node.udp_over_tcp_version;
        }
        ss
    }
}

} // verus!

//! Snell proxies in a Clash configuration.
use super::clash_output_shadowsocks::{opt_pairs, parsed_opts};
use super::common_proxy_options::{common_of, proxy_common, CommonProxyOptions};
use crate::models::proxy::Proxy;
use crate::text::parse_opts_exec;
use vstd::prelude::*;

verus! {

/// A Snell proxy. Obfuscation options are key-value pairs, each key once.
#[derive(Debug, Clone)]
pub struct SnellProxy {
    pub common: CommonProxyOptions,
    pub psk: Option<String>,
    pub version: Option<u32>,
    pub obfs: Option<String>,
    pub obfs_opts: Option<Vec<(String, String)>>,
}

impl SnellProxy {
    /// `r` holds `common` and leaves every other option unset.
    pub open spec fn bare(r: Self, common: CommonProxyOptions) -> bool {
        &&& r.common == common
        &&& r.psk is None
        &&& r.version is None
        &&& r.obfs is None
        &&& r.obfs_opts is None
    }

    /// A Snell proxy with the given common options and nothing else set.
    pub fn new(common: CommonProxyOptions) -> (r: Self)
        ensures
            Self::bare(r, common),
    {
        Self { common, psk: None, version: None, obfs: None, obfs_opts: None }
    }

    /// `r` is the conversion of `proxy` (see [`Self::from_proxy`]).
    pub open spec fn made_from(r: Self, proxy: Proxy) -> bool {
        &&& r.common == proxy_common(proxy)
        &&& r.psk == proxy.password
        &&& r.version == Some(proxy.snell_version as u32)
        &&& r.obfs == proxy.obfs
        &&& opt_pairs(r.obfs_opts) == parsed_opts(proxy.obfs_param)
    }

    /// The Snell proxy for a node: the password is the pre-shared key and the
    /// obfuscation options are parsed from the node's obfuscation parameter.
    pub fn from_proxy(proxy: Proxy) -> (r: Self)
        ensures
            Self::made_from(r, proxy),
    {
        let mut snell = SnellProxy::new(common_of(&proxy));
        snell.psk = proxy.password;
        snell.version = Some(proxy.snell_version as u32);
        snell.obfs = proxy.obfs;
        if let Some(opts) = &proxy.obfs_param {
            snell.obfs_opts = Some(parse_opts_exec(opts));
        }
        snell
    }
}

} // verus!

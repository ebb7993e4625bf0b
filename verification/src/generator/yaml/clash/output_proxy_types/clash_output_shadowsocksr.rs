//! ShadowsocksR proxies in a Clash configuration.
use super::common_proxy_options::{common_of, proxy_common, CommonProxyOptions};
use crate::models::proxy::Proxy;
use vstd::prelude::*;

verus! {

/// A ShadowsocksR proxy.
#[derive(Debug, Clone)]
pub struct ShadowsocksRProxy {
    pub common: CommonProxyOptions,
    pub cipher: Option<String>,
    pub password: Option<String>,
    pub protocol: Option<String>,
    pub protocol_param: Option<String>,
    pub obfs: Option<String>,
    pub obfs_param: Option<String>,
}

impl ShadowsocksRProxy {
    /// `r` holds `common` and leaves every other option unset.
    pub open spec fn bare(r: Self, common: CommonProxyOptions) -> bool {
        &&& r.common == common
        &&& r.cipher is None
        &&& r.password is None
        &&& r.protocol is None
        &&& r.protocol_param is None
        &&& r.obfs is None
        &&& r.obfs_param is None
    }

    /// A ShadowsocksR proxy with the given common options and nothing else set.
    pub fn new(common: CommonProxyOptions) -> (r: Self)
        ensures
            Self::bare(r, common),
    {
        Self {
            common,
            cipher: None,
            password: None,
            protocol: None,
            protocol_param: None,
            obfs: None,
            obfs_param: None,
        }
    }

    /// `r` is the conversion of `proxy` (see [`Self::from_proxy`]).
    pub open spec fn made_from(r: Self, proxy: Proxy) -> bool {
        &&& r.common == proxy_common(proxy)
        &&& r.cipher == proxy.encrypt_method
        &&& r.password == proxy.password
        &&& r.protocol == proxy.protocol
        &&& r.protocol_param == proxy.protocol_param
        &&& r.obfs == proxy.obfs
        &&& r.obfs_param == proxy.obfs_param
    }

    /// The ShadowsocksR proxy for a node.
    pub fn from_proxy(proxy: Proxy) -> (r: Self)
        ensures
            Self::made_from(r, proxy),
    {
        let mut ssr = ShadowsocksRProxy::new(common_of(&proxy));
        ssr.cipher = proxy.encrypt_method;
        ssr.password = proxy.password;
        ssr.protocol = proxy.protocol;
        ssr.protocol_param = proxy.protocol_param;
        ssr.obfs = proxy.obfs;
        ssr.obfs_param = proxy.obfs_param;
        ssr
    }
}

} // verus!

//! SOCKS5 proxies in a Clash configuration.
use super::common_proxy_options::{common_of, proxy_common, CommonProxyOptions};
use crate::models::proxy::Proxy;
use vstd::prelude::*;

verus! {

/// A SOCKS5 proxy.
#[derive(Debug, Clone)]
pub struct Socks5Proxy {
    pub common: CommonProxyOptions,
    pub username: Option<String>,
    pub password: Option<String>,
}

impl Socks5Proxy {
    /// `r` holds `common` and leaves every other option unset.
    pub open spec fn bare(r: Self, common: CommonProxyOptions) -> bool {
        &&& r.common == common
        &&& r.username is None
        &&& r.password is None
    }

    /// A SOCKS5 proxy with the given common options and no credentials.
    pub fn new(common: CommonProxyOptions) -> (r: Self)
        ensures
            Self::bare(r, common),
    {
        Self { common, username: None, password: None }
    }

    /// `r` is the conversion of `proxy` (see [`Self::from_proxy`]).
    pub open spec fn made_from(r: Self, proxy: Proxy) -> bool {
        &&& r.common == proxy_common(proxy)
        &&& r.username == proxy.username
        &&& r.password == proxy.password
    }

    /// The SOCKS5 proxy for a node.
    pub fn from_proxy(proxy: Proxy) -> (r: Self)
        ensures
            Self::made_from(r, proxy),
    {
        let mut socks5 = Socks5Proxy::new(common_of(&proxy));
        socks5.username = proxy.username;
        socks5.password = proxy.password;
        socks5
    }
}

} // verus!

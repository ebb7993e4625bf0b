//! HTTP proxies in a Clash configuration.
use super::common_proxy_options::{proxy_common, CommonProxyOptions};
use crate::models::proxy::{Proxy, ProxyType};
use vstd::prelude::*;

verus! {

/// An HTTP proxy.
#[derive(Debug, Clone)]
pub struct HttpProxy {
    pub common: CommonProxyOptions,
    pub username: Option<String>,
    pub password: Option<String>,
}

impl HttpProxy {
    /// `r` holds `common` and leaves every other option unset.
    pub open spec fn bare(r: Self, common: CommonProxyOptions) -> bool {
        &&& r.common == common
        &&& r.username is None
        &&& r.password is None
    }

    /// An HTTP proxy with the given common options and no credentials.
    pub fn new(common: CommonProxyOptions) -> (r: Self)
        ensures
            Self::bare(r, common),
    {
        Self { common, username: None, password: None }
    }

    /// `r` is the conversion of `proxy` (see [`Self::from_proxy`]).
    pub open spec fn made_from(r: Self, proxy: Proxy) -> bool {
        &&& r.common == (CommonProxyOptions {
            tls: Some(proxy.proxy_type == ProxyType::HTTPS),
            sni: None,
            ..proxy_common(proxy)
        })
        &&& r.username == proxy.username
        &&& r.password == proxy.password
    }

    /// The HTTP proxy for a node: TLS is set exactly for HTTPS nodes; the
    /// SNI is not carried over.
    pub fn from_proxy(proxy: Proxy) -> (r: Self)
        ensures
            Self::made_from(r, proxy),
    {
        let common = CommonProxyOptions::builder(proxy.remark.clone(), proxy.hostname.clone(), proxy.port)
            .udp(proxy.udp)
            .tfo(proxy.tcp_fast_open)
            .skip_cert_verify(proxy.allow_insecure)
            .tls(Some(proxy.proxy_type == ProxyType::HTTPS))
            .build();
        let mut http = HttpProxy::new(common);
        http.username = proxy.username;
        http.password = proxy.password;
        http
    }
}

} // verus!

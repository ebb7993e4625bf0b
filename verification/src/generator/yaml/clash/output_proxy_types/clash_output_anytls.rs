//! AnyTLS proxies in a Clash configuration (a mihomo extension).
use super::common_proxy_options::{common_of, proxy_common, CommonProxyOptions};
use crate::models::proxy::Proxy;
use crate::models::proxy_node::{AnyTlsProxy, CombinedProxy};
use vstd::prelude::*;

verus! {

/// An AnyTLS proxy.
#[derive(Debug, Clone)]
pub struct ClashOutputAnyTLS {
    pub common: CommonProxyOptions,
    pub password: String,
    pub alpn: Option<Vec<String>>,
    pub sni: Option<String>,
    pub skip_cert_verify: Option<bool>,
    pub fingerprint: Option<String>,
    pub client_fingerprint: Option<String>,
    pub udp: Option<bool>,
    pub idle_session_check_interval: Option<i32>,
    pub idle_session_timeout: Option<i32>,
    pub min_idle_session: Option<i32>,
}

/// `r` holds the common options and nothing else.
pub open spec fn anytls_bare(r: ClashOutputAnyTLS, common: CommonProxyOptions) -> bool {
    &&& r.common == common
    &&& r.password@ == Seq::<char>::empty()
    &&& r.alpn is None
    &&& r.sni is None
    &&& r.skip_cert_verify is None
    &&& r.fingerprint is None
    &&& r.client_fingerprint is None
    &&& r.udp is None
    &&& r.idle_session_check_interval is None
    &&& r.idle_session_timeout is None
    &&& r.min_idle_session is None
}

/// `r` was made from the AnyTLS details `a` of a node; a non-empty ALPN set
/// is carried over, and UDP is not.
pub open spec fn anytls_from_details(r: ClashOutputAnyTLS, a: AnyTlsProxy, common: CommonProxyOptions) -> bool {
    &&& r.common == common
    &&& r.password == a.password
    &&& r.sni == a.sni
    &&& r.skip_cert_verify == a.skip_cert_verify
    &&& r.fingerprint == a.fingerprint
    &&& r.client_fingerprint == a.client_fingerprint
    &&& r.idle_session_check_interval == a.idle_session_check_interval
    &&& r.idle_session_timeout == a.idle_session_timeout
    &&& r.min_idle_session == a.min_idle_session
    &&& r.udp is None
    &&& r.alpn == (match a.alpn {
        Some(l) => if l@.len() > 0 { Some(l) } else { None },
        None => None,
    })
}

impl ClashOutputAnyTLS {
    /// An AnyTLS proxy with the given common options and nothing else set.
    pub fn new(common: CommonProxyOptions) -> (r: Self)
        ensures
            anytls_bare(r, common),
    {
        Self {
            common,
            password: String::new(),
            alpn: None,
            sni: None,
            skip_cert_verify: None,
            fingerprint: None,
            client_fingerprint: None,
            udp: None,
            idle_session_check_interval: None,
            idle_session_timeout: None,
            min_idle_session: None,
        }
    }

    /// `r` is the conversion of `proxy` (see [`Self::from_proxy`]).
    pub open spec fn made_from(r: Self, proxy: Proxy) -> bool {
        &&& match proxy.combined_proxy {
            Some(CombinedProxy::AnyTls(a)) => anytls_from_details(r, a, proxy_common(proxy)),
            _ => anytls_bare(r, proxy_common(proxy))
        }
    }

    /// The AnyTLS proxy for a node, from its AnyTLS details when it has them.
    pub fn from_proxy(proxy: Proxy) -> (r: Self)
        ensures
            Self::made_from(r, proxy),
    {
        let mut anytls = ClashOutputAnyTLS::new(common_of(&proxy));
        match proxy.combined_proxy {
            Some(CombinedProxy::AnyTls(a)) => {
                anytls.password = a.password;
                anytls.sni = a.sni;
                anytls.skip_cert_verify = a.skip_cert_verify;
                anytls.fingerprint = a.fingerprint;
                anytls.client_fingerprint = a.client_fingerprint;
                anytls.idle_session_check_interval = a.idle_session_check_interval;
                anytls.idle_session_timeout = a.idle_session_timeout;
                anytls.min_idle_session = a.min_idle_session;
                match a.alpn {
                    Some(l) => {
                        if l.len() > 0 {
                            anytls.alpn = Some(l);
                        }
                    },
                    None => {},
                }
            },
            _ => {},
        }
        anytls
    }
}

} // verus!

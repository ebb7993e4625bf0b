//! Hysteria proxies in a Clash configuration.
use super::common_proxy_options::{common_of, proxy_common, CommonProxyOptions};
use crate::models::proxy::Proxy;
use crate::text::{clone_opt, clone_strings, decimal_with_suffix, nat_decimal, ov};
use vstd::prelude::*;

verus! {

/// A Hysteria proxy.
#[derive(Debug, Clone)]
pub struct HysteriaProxy {
    pub common: CommonProxyOptions,
    pub ports: Option<String>,
    pub protocol: Option<String>,
    pub obfs_protocol: Option<String>,
    pub up: Option<String>,
    pub up_speed: Option<u32>,
    pub down: Option<String>,
    pub down_speed: Option<u32>,
    pub auth: Option<String>,
    pub auth_str: Option<String>,
    pub obfs: Option<String>,
    pub fingerprint: Option<String>,
    pub alpn: Option<Vec<String>>,
    pub ca: Option<String>,
    pub ca_str: Option<String>,
    pub recv_window_conn: Option<u32>,
    pub recv_window: Option<u32>,
    pub disable_mtu_discovery: Option<bool>,
    pub fast_open: Option<bool>,
    pub hop_interval: Option<u32>,
}

/// A bandwidth in the notation of the configuration, such as `100Mbps`;
/// none for zero.
pub open spec fn bandwidth(n: u32) -> Option<Seq<char>> {
    if n > 0 {
        Some(nat_decimal(n as nat) + "Mbps"@)
    } else {
        None
    }
}

/// A positive number, or none for zero.
pub open spec fn positive(n: u32) -> Option<u32> {
    if n > 0 {
        Some(n)
    } else {
        None
    }
}

/// The bandwidth notation of a speed (see [`bandwidth`]).
pub fn bandwidth_of(n: u32) -> (r: Option<String>)
    ensures
        ov(r) == bandwidth(n),
{
    if n > 0 {
        Some(decimal_with_suffix(n, "Mbps"))
    } else {
        None
    }
}

impl HysteriaProxy {
    /// `r` holds `common` and leaves every other option unset.
    pub open spec fn bare(r: Self, common: CommonProxyOptions) -> bool {
        &&& r.common == common
        &&& r.ports is None
        &&& r.protocol is None
        &&& r.obfs_protocol is None
        &&& r.up is None
        &&& r.up_speed is None
        &&& r.down is None
        &&& r.down_speed is None
        &&& r.auth is None
        &&& r.auth_str is None
        &&& r.obfs is None
        &&& r.fingerprint is None
        &&& r.alpn is None
        &&& r.ca is None
        &&& r.ca_str is None
        &&& r.recv_window_conn is None
        &&& r.recv_window is None
        &&& r.disable_mtu_discovery is None
        &&& r.fast_open is None
        &&& r.hop_interval is None
    }

    /// A Hysteria proxy with the given common options and nothing else set.
    pub fn new(common: CommonProxyOptions) -> (r: Self)
        ensures
            Self::bare(r, common),
    {
        Self {
            common,
            ports: None,
            protocol: None,
            obfs_protocol: None,
            up: None,
            up_speed: None,
            down: None,
            down_speed: None,
            auth: None,
            auth_str: None,
            obfs: None,
            fingerprint: None,
            alpn: None,
            ca: None,
            ca_str: None,
            recv_window_conn: None,
            recv_window: None,
            disable_mtu_discovery: None,
            fast_open: None,
            hop_interval: None,
        }
    }

    /// `r` is the conversion of `proxy` (see [`Self::from_proxy`]).
    pub open spec fn made_from(r: Self, proxy: Proxy) -> bool {
        &&& r.common == proxy_common(proxy)
        &&& r.ports == proxy.ports
        &&& r.protocol == proxy.protocol
        &&& r.obfs_protocol == proxy.obfs
        &&& ov(r.up) == bandwidth(proxy.up_speed)
        &&& r.up_speed == positive(proxy.up_speed)
        &&& ov(r.down) == bandwidth(proxy.down_speed)
        &&& r.down_speed == positive(proxy.down_speed)
        &&& r.auth == proxy.auth
        &&& r.auth_str == proxy.auth_str
        &&& r.obfs == proxy.obfs
        &&& r.fingerprint == proxy.fingerprint
        &&& match r.alpn {
            Some(a) => proxy.alpn@.len() > 0 && a@ == proxy.alpn@,
            None => proxy.alpn@.len() == 0
        }
        &&& r.ca == proxy.ca
        &&& r.ca_str == proxy.ca_str
        &&& r.recv_window_conn == positive(proxy.recv_window_conn)
        &&& r.recv_window == positive(proxy.recv_window)
        &&& r.disable_mtu_discovery == proxy.disable_mtu_discovery
        &&& r.fast_open == proxy.tcp_fast_open
        &&& r.hop_interval == positive(proxy.hop_interval)
    }

    /// The Hysteria proxy for a node: speeds become bandwidths in Mbps, zero
    /// values are left out, the obfuscation also names the obfuscation
    /// protocol and TCP Fast Open is the fast-open flag.
    pub fn from_proxy(proxy: Proxy) -> (r: Self)
        ensures
            Self::made_from(r, proxy),
    {
        let mut h = HysteriaProxy::new(common_of(&proxy));
        h.ports = clone_opt(&proxy.ports);
        h.protocol = clone_opt(&proxy.protocol);
        h.obfs_protocol = clone_opt(&proxy.obfs);
        h.up = bandwidth_of(proxy.up_speed);
        if proxy.up_speed > 0 {
            h.up_speed = Some(proxy.up_speed);
        }
        h.down = bandwidth_of(proxy.down_speed);
        if proxy.down_speed > 0 {
            h.down_speed = Some(proxy.down_speed);
        }
        h.auth = clone_opt(&proxy.auth);
        h.auth_str = clone_opt(&proxy.auth_str);
        h.obfs = clone_opt(&proxy.obfs);
        h.fingerprint = clone_opt(&proxy.fingerprint);
        if proxy.alpn.len() > 0 {
            h.alpn = Some(clone_strings(&proxy.alpn));
        }
        h.ca = clone_opt(&proxy.ca);
        h.ca_str = clone_opt(&proxy.ca_str);
        if proxy.recv_window_conn > 0 {
            h.recv_window_conn = Some(proxy.recv_window_conn);
        }
        if proxy.recv_window > 0 {
            h.recv_window = Some(proxy.recv_window);
        }
        h.disable_mtu_discovery = proxy.disable_mtu_discovery;
        h.fast_open = proxy.tcp_fast_open;
        if proxy.hop_interval > 0 {
            h.hop_interval = Some(proxy.hop_interval);
        }
        h
    }
}

} // verus!

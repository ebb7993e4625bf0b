//! Hysteria2 proxies in a Clash configuration.
use super::clash_output_hysteria::{bandwidth, bandwidth_of, positive};
use super::common_proxy_options::{common_of, proxy_common, CommonProxyOptions};
use crate::models::proxy::Proxy;
use crate::text::{clone_opt, clone_strings, ov};
use vstd::prelude::*;

verus! {

/// A Hysteria2 proxy.
#[derive(Debug, Clone)]
pub struct Hysteria2Proxy {
    pub common: CommonProxyOptions,
    pub password: Option<String>,
    pub obfs: Option<String>,
    pub obfs_password: Option<String>,
    pub ports: Option<String>,
    pub up: Option<String>,
    pub down: Option<String>,
    pub fingerprint: Option<String>,
    pub alpn: Option<Vec<String>>,
    pub ca: Option<String>,
    pub ca_str: Option<String>,
    pub cwnd: Option<u32>,
    pub udp_mtu: Option<u32>,
    pub recv_window_conn: Option<u32>,
    pub recv_window: Option<u32>,
    pub disable_mtu_discovery: Option<bool>,
    pub fast_open: Option<bool>,
    pub hop_interval: Option<u32>,
}

impl Hysteria2Proxy {
    /// `r` holds `common` and leaves every other option unset.
    pub open spec fn bare(r: Self, common: CommonProxyOptions) -> bool {
        &&& r.common == common
        &&& r.password is None
        &&& r.obfs is None
        &&& r.obfs_password is None
        &&& r.ports is None
        &&& r.up is None
        &&& r.down is None
        &&& r.fingerprint is None
        &&& r.alpn is None
        &&& r.ca is None
        &&& r.ca_str is None
        &&& r.cwnd is None
        &&& r.udp_mtu is None
        &&& r.recv_window_conn is None
        &&& r.recv_window is None
        &&& r.disable_mtu_discovery is None
        &&& r.fast_open is None
        &&& r.hop_interval is None
    }

    /// A Hysteria2 proxy with the given common options and nothing else set.
    pub fn new(common: CommonProxyOptions) -> (r: Self)
        ensures
            Self::bare(r, common),
    {
        Self {
            common,
            password: None,
            obfs: None,
            obfs_password: None,
            ports: None,
            up: None,
            down: None,
            fingerprint: None,
            alpn: None,
            ca: None,
            ca_str: None,
            cwnd: None,
            udp_mtu: None,
            recv_window_conn: None,
            recv_window: None,
            disable_mtu_discovery: None,
            fast_open: None,
            hop_interval: None,
        }
    }

    /// `r` is the conversion of `proxy` (see [`Self::from_proxy`]).
    pub open spec fn made_from(r: Self, proxy: Proxy) -> bool {
        &&& r.common == proxy_common(proxy)
        &&& r.password == proxy.password
        &&& r.obfs == proxy.obfs
        &&& r.obfs_password == proxy.obfs_param
        &&& r.ports == proxy.ports
        &&& ov(r.up) == bandwidth(proxy.up_speed)
        &&& ov(r.down) == bandwidth(proxy.down_speed)
        &&& r.fingerprint == proxy.fingerprint
        &&& match r.alpn {
            Some(a) => proxy.alpn@.len() > 0 && a@ == proxy.alpn@,
            None => proxy.alpn@.len() == 0
        }
        &&& r.ca == proxy.ca
        &&& r.ca_str == proxy.ca_str
        &&& r.cwnd == positive(proxy.cwnd)
        &&& r.udp_mtu == positive(proxy.mtu as u32)
        &&& r.recv_window_conn == positive(proxy.recv_window_conn)
        &&& r.recv_window == positive(proxy.recv_window)
        &&& r.disable_mtu_discovery == proxy.disable_mtu_discovery
        &&& r.fast_open == proxy.tcp_fast_open
        &&& r.hop_interval == positive(proxy.hop_interval)
    }

    /// The Hysteria2 proxy for a node: the obfuscation parameter is the
    /// obfuscation password, speeds become bandwidths in Mbps, the MTU is the
    /// UDP MTU, and zero values are left out.
    pub fn from_proxy(proxy: Proxy) -> (r: Self)
        ensures
            Self::made_from(r, proxy),
    {
        let mut h = Hysteria2Proxy::new(common_of(&proxy));
        h.password = clone_opt(&proxy.password);
        h.obfs = clone_opt(&proxy.obfs);
        h.obfs_password = clone_opt(&proxy.obfs_param);
        h.ports = clone_opt(&proxy.ports);
        h.up = bandwidth_of(proxy.up_speed);
        h.down = bandwidth_of(proxy.down_speed);
        h.fingerprint = clone_opt(&proxy.fingerprint);
        if proxy.alpn.len() > 0 {
            h.alpn = Some(clone_strings(&proxy.alpn));
        }
        h.ca = clone_opt(&proxy.ca);
        h.ca_str = clone_opt(&proxy.ca_str);
        if proxy.cwnd > 0 {
            h.cwnd = Some(proxy.cwnd);
        }
        if proxy.mtu > 0 {
            h.udp_mtu = Some(proxy.mtu as u32);
        }
        if proxy.recv_window_conn > 0 {
            h.recv_window_conn = Some(proxy.recv_window_conn);
        }
        if proxy.recv_window > 0 {
            h.recv_window = Some(proxy.recv_window);
        }
        h.disable_mtu_discovery = proxy.disable_mtu_discovery;
        h.fast_open = proxy.tcp_fast_open;
        if proxy.hop_interval > 0 {
            h.hop_interval = Some(proxy.hop_interval);
        }
        h
    }
}

} // verus!

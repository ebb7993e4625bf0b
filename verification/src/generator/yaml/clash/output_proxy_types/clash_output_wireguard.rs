//! WireGuard proxies in a Clash configuration.
use super::common_proxy_options::{common_of, proxy_common, CommonProxyOptions};
use crate::models::proxy::Proxy;
use crate::text::{chars_of, clone_opt, clone_strings, split, split_char, string_of, string_views, trim, trim_chars, views};
use vstd::prelude::*;

verus! {

/// A WireGuard proxy.
#[derive(Debug, Clone)]
pub struct WireGuardProxy {
    pub common: CommonProxyOptions,
    pub private_key: Option<String>,
    pub public_key: Option<String>,
    pub ip: Option<String>,
    pub ipv6: Option<String>,
    pub preshared_key: Option<String>,
    pub dns: Option<Vec<String>>,
    pub mtu: Option<u32>,
    pub allowed_ips: Option<Vec<String>>,
    pub keepalive: Option<u32>,
}

/// The allowed IP ranges of a comma-separated list, each trimmed.
pub open spec fn allowed_ip_list(s: Seq<char>) -> Seq<Seq<char>> {
    split_char(s, ',').map_values(|x: Seq<char>| trim(x))
}

impl WireGuardProxy {
    /// `r` holds `common` and leaves every other option unset.
    pub open spec fn bare(r: Self, common: CommonProxyOptions) -> bool {
        &&& r.common == common
        &&& r.private_key is None
        &&& r.public_key is None
        &&& r.ip is None
        &&& r.ipv6 is None
        &&& r.preshared_key is None
        &&& r.dns is None
        &&& r.mtu is None
        &&& r.allowed_ips is None
        &&& r.keepalive is None
    }

    /// A WireGuard proxy with the given common options and nothing else set.
    pub fn new(common: CommonProxyOptions) -> (r: Self)
        ensures
            Self::bare(r, common),
    {
        Self {
            common,
            private_key: None,
            public_key: None,
            ip: None,
            ipv6: None,
            preshared_key: None,
            dns: None,
            mtu: None,
            allowed_ips: None,
            keepalive: None,
        }
    }

    /// `r` is the conversion of `proxy` (see [`Self::from_proxy`]).
    pub open spec fn made_from(r: Self, proxy: Proxy) -> bool {
        &&& r.common == proxy_common(proxy)
        &&& r.private_key == proxy.private_key
        &&& r.public_key == proxy.public_key
        &&& r.ip == proxy.self_ip
        &&& r.ipv6 == proxy.self_ipv6
        &&& r.preshared_key == proxy.pre_shared_key
        &&& match r.dns {
            Some(d) => proxy.dns_servers@.len() > 0 && d@ == proxy.dns_servers@,
            None => proxy.dns_servers@.len() == 0
        }
        &&& r.mtu == Some(proxy.mtu as u32)
        &&& match r.allowed_ips {
            Some(a) => proxy.allowed_ips@.len() > 0 && string_views(a@) == allowed_ip_list(proxy.allowed_ips@),
            None => proxy.allowed_ips@.len() == 0
        }
        &&& r.keepalive == Some(proxy.keep_alive as u32)
    }

    /// The WireGuard proxy for a node: DNS servers when it has any, the
    /// comma-separated allowed IPs split and trimmed when not empty.
    pub fn from_proxy(proxy: Proxy) -> (r: Self)
        ensures
            Self::made_from(r, proxy),
    {
        let mut wg = WireGuardProxy::new(common_of(&proxy));
        wg.private_key = clone_opt(&proxy.private_key);
        wg.public_key = clone_opt(&proxy.public_key);
        wg.ip = clone_opt(&proxy.self_ip);
        wg.ipv6 = clone_opt(&proxy.self_ipv6);
        wg.preshared_key = clone_opt(&proxy.pre_shared_key);
        if proxy.dns_servers.len() > 0 {
            wg.dns = Some(clone_strings(&proxy.dns_servers));
        }
        wg.mtu = Some(proxy.mtu as u32);
        if !proxy.allowed_ips.as_str().is_empty() {
            let c = chars_of(proxy.allowed_ips.as_str());
            let parts = split(c.as_slice(), ',');
            let mut out: Vec<String> = Vec::new();
            let mut i: usize = 0;
            while i < parts.len()
                invariant
                    i <= parts@.len(),
                    views(parts@) == split_char(proxy.allowed_ips@, ','),
                    string_views(out@) == allowed_ip_list(proxy.allowed_ips@).take(i as int),
                decreases parts@.len() - i,
            {
                let t = trim_chars(parts[i].as_slice());
                let ghost prev = string_views(out@);
                out.push(string_of(t.as_slice()));
                assert(t@ == allowed_ip_list(proxy.allowed_ips@)[i as int]);
                assert(string_views(out@) =~= prev.push(t@));
                i = i + 1;
                assert(string_views(out@) =~= allowed_ip_list(proxy.allowed_ips@).take(i as int));
            }
            assert(allowed_ip_list(proxy.allowed_ips@).take(parts@.len() as int) =~= allowed_ip_list(
                proxy.allowed_ips@,
            ));
            wg.allowed_ips = Some(out);
        }
        wg.keepalive = Some(proxy.keep_alive as u32);
        wg
    }
}

} // verus!

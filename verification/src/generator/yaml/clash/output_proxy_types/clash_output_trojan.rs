//! Trojan proxies in a Clash configuration.
use super::clash_output_shadowsocks::opt_pairs;
use super::common_proxy_options::{common_of, proxy_common, CommonProxyOptions};
use crate::models::proxy::Proxy;
use crate::text::{clone_opt, eq_str};
use vstd::prelude::*;

verus! {

/// A Trojan proxy.
#[derive(Debug, Clone)]
pub struct TrojanProxy {
    pub common: CommonProxyOptions,
    pub password: Option<String>,
    pub network: Option<String>,
    pub ws_opts: Option<WsOptions>,
    pub grpc_opts: Option<GrpcOptions>,
}

/// WebSocket transport options; headers are key-value pairs, each key once.
#[derive(Debug, Clone)]
pub struct WsOptions {
    pub path: Option<String>,
    pub headers: Option<Vec<(String, String)>>,
}

/// gRPC transport options.
#[derive(Debug, Clone)]
pub struct GrpcOptions {
    pub service_name: Option<String>,
}

/// A `Host` header for the node's host, when it has one.
pub open spec fn host_header(host: Option<String>) -> Option<Seq<(Seq<char>, Seq<char>)>> {
    match host {
        Some(h) => Some(seq![("Host"@, h@)]),
        None => None,
    }
}

/// A header list holding only `Host: host`.
pub fn host_headers(host: &Option<String>) -> (r: Option<Vec<(String, String)>>)
    ensures
        opt_pairs(r) == host_header(*host),
{
    match host {
        Some(h) => {
            let mut v: Vec<(String, String)> = Vec::new();
            v.push(("Host".to_owned(), h.clone()));
            assert(crate::text::pair_views(v@) =~= seq![("Host"@, h@)]);
            Some(v)
        },
        None => None,
    }
}

/// The network of a node is the given name.
pub open spec fn network_is(network: Option<String>, name: Seq<char>) -> bool {
    network matches Some(n) && n@ == name
}

impl TrojanProxy {
    /// `r` holds `common` and leaves every other option unset.
    pub open spec fn bare(r: Self, common: CommonProxyOptions) -> bool {
        &&& r.common == common
        &&& r.password is None
        &&& r.network is None
        &&& r.ws_opts is None
        &&& r.grpc_opts is None
    }

    /// A Trojan proxy with the given common options and nothing else set.
    pub fn new(common: CommonProxyOptions) -> (r: Self)
        ensures
            Self::bare(r, common),
    {
        Self { common, password: None, network: None, ws_opts: None, grpc_opts: None }
    }

    /// `r` is the conversion of `proxy` (see [`Self::from_proxy`]).
    pub open spec fn made_from(r: Self, proxy: Proxy) -> bool {
        &&& r.common == proxy_common(proxy)
        &&& r.password == proxy.password
        &&& r.network == proxy.transfer_protocol
        &&& match r.ws_opts {
            Some(ws) => network_is(proxy.transfer_protocol, "ws"@) && ws.path == proxy.path
                && opt_pairs(ws.headers) == host_header(proxy.host),
            None => !network_is(proxy.transfer_protocol, "ws"@)
        }
        &&& match r.grpc_opts {
            Some(g) => network_is(proxy.transfer_protocol, "grpc"@) && g.service_name == proxy.path,
            None => !network_is(proxy.transfer_protocol, "grpc"@)
        }
    }

    /// The Trojan proxy for a node: a `ws` network gets WebSocket options
    /// (path, and a `Host` header from the node's host); a `grpc` network
    /// gets gRPC options with the path as service name.
    pub fn from_proxy(proxy: Proxy) -> (r: Self)
        ensures
            Self::made_from(r, proxy),
    {
        let mut trojan = TrojanProxy::new(common_of(&proxy));
        trojan.password = clone_opt(&proxy.password);
        trojan.network = clone_opt(&proxy.transfer_protocol);
        proof {
            reveal_strlit("ws");
            reveal_strlit("grpc");
            assert("ws"@.len() != "grpc"@.len());
        }
        if let Some(network) = &proxy.transfer_protocol {
            let n = crate::text::chars_of(network.as_str());
            if eq_str(n.as_slice(), "ws") {
                trojan.ws_opts = Some(WsOptions { path: clone_opt(&proxy.path), headers: host_headers(&proxy.host) });
            } else if eq_str(n.as_slice(), "grpc") {
                trojan.grpc_opts = Some(GrpcOptions { service_name: clone_opt(&proxy.path) });
            }
        }
        trojan
    }
}

} // verus!

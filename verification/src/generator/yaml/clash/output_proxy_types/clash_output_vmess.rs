//! VMess proxies in a Clash configuration.
use super::clash_output_shadowsocks::opt_pairs;
use super::clash_output_trojan::{host_header, host_headers, network_is};
use super::common_proxy_options::{common_of, proxy_common, CommonProxyOptions};
use crate::models::proxy::Proxy;
use crate::text::{chars_of, clone_opt, eq_str, ovs};
use vstd::prelude::*;

verus! {

/// A VMess proxy.
#[derive(Debug, Clone)]
pub struct VmessProxy {
    pub common: CommonProxyOptions,
    pub uuid: Option<String>,
    /// Required by Clash, named `alterId` there.
    pub alter_id: u32,
    pub cipher: Option<String>,
    pub network: Option<String>,
    pub ws_opts: Option<VmessWsOptions>,
    pub http_opts: Option<VmessHttpOptions>,
    pub h2_opts: Option<VmessH2Options>,
    pub grpc_opts: Option<VmessGrpcOptions>,
}

/// WebSocket options; headers are key-value pairs, each key once.
#[derive(Debug, Clone)]
pub struct VmessWsOptions {
    pub path: Option<String>,
    pub headers: Option<Vec<(String, String)>>,
}

/// HTTP options; headers are key-value pairs, each key once.
#[derive(Debug, Clone)]
pub struct VmessHttpOptions {
    pub path: Option<String>,
    pub headers: Option<Vec<(String, String)>>,
}

/// HTTP/2 options.
#[derive(Debug, Clone)]
pub struct VmessH2Options {
    pub path: Option<String>,
    pub host: Option<Vec<String>>,
}

/// gRPC options.
#[derive(Debug, Clone)]
pub struct VmessGrpcOptions {
    pub service_name: Option<String>,
}

/// A host list holding only the node's host, when it has one.
pub open spec fn host_list(host: Option<String>) -> Option<Seq<Seq<char>>> {
    match host {
        Some(h) => Some(seq![h@]),
        None => None,
    }
}

impl VmessProxy {
    /// `r` holds `common` and leaves every other option unset.
    pub open spec fn bare(r: Self, common: CommonProxyOptions) -> bool {
        &&& r.common == common
        &&& r.uuid is None
        &&& r.alter_id == 0
        &&& r.cipher is None
        &&& r.network is None
        &&& r.ws_opts is None
        &&& r.http_opts is None
        &&& r.h2_opts is None
        &&& r.grpc_opts is None
    }

    /// A VMess proxy with the given common options and nothing else set.
    pub fn new(common: CommonProxyOptions) -> (r: Self)
        ensures
            Self::bare(r, common),
    {
        Self {
            common,
            uuid: None,
            alter_id: 0,
            cipher: None,
            network: None,
            ws_opts: None,
            http_opts: None,
            h2_opts: None,
            grpc_opts: None,
        }
    }

    /// `r` is the conversion of `proxy` (see [`Self::from_proxy`]).
    pub open spec fn made_from(r: Self, proxy: Proxy) -> bool {
        &&& r.common == proxy_common(proxy)
        &&& r.uuid == proxy.user_id
        &&& r.alter_id == proxy.alter_id as u32
        &&& r.cipher == proxy.encrypt_method
        &&& r.network == proxy.transfer_protocol
        &&& match r.ws_opts {
            Some(o) => network_is(proxy.transfer_protocol, "ws"@) && o.path == proxy.path
                && opt_pairs(o.headers) == host_header(proxy.host),
            None => !network_is(proxy.transfer_protocol, "ws"@)
        }
        &&& match r.http_opts {
            Some(o) => network_is(proxy.transfer_protocol, "http"@) && o.path == proxy.path
                && opt_pairs(o.headers) == host_header(proxy.host),
            None => !network_is(proxy.transfer_protocol, "http"@)
        }
        &&& match r.h2_opts {
            Some(o) => network_is(proxy.transfer_protocol, "h2"@) && o.path == proxy.path
                && ovs(o.host) == host_list(proxy.host),
            None => !network_is(proxy.transfer_protocol, "h2"@)
        }
        &&& match r.grpc_opts {
            Some(o) => network_is(proxy.transfer_protocol, "grpc"@) && o.service_name == proxy.path,
            None => !network_is(proxy.transfer_protocol, "grpc"@)
        }
    }

    /// The VMess proxy for a node; the transport options of its network
    /// (`ws`, `http`, `h2` or `grpc`) take the node's path and host.
    pub fn from_proxy(proxy: Proxy) -> (r: Self)
        ensures
            Self::made_from(r, proxy),
    {
        let mut vmess = VmessProxy::new(common_of(&proxy));
        vmess.uuid = clone_opt(&proxy.user_id);
        vmess.alter_id = proxy.alter_id as u32;
        vmess.cipher = clone_opt(&proxy.encrypt_method);
        vmess.network = clone_opt(&proxy.transfer_protocol);
        proof {
            reveal_strlit("ws");
            reveal_strlit("http");
            reveal_strlit("h2");
            reveal_strlit("grpc");
            assert("ws"@ != "h2"@) by {
                assert("ws"@[0] != "h2"@[0]);
            }
            assert("http"@ != "grpc"@) by {
                assert("http"@[0] != "grpc"@[0]);
            }
        }
        if let Some(network) = &proxy.transfer_protocol {
            let n = chars_of(network.as_str());
            assert(n@ == network@);
            if eq_str(n.as_slice(), "ws") {
                vmess.ws_opts = Some(VmessWsOptions { path: clone_opt(&proxy.path), headers: host_headers(&proxy.host) });
            } else if eq_str(n.as_slice(), "http") {
                assert(network_is(proxy.transfer_protocol, "http"@));
                vmess.http_opts = Some(VmessHttpOptions { path: clone_opt(&proxy.path), headers: host_headers(&proxy.host) });
            } else if eq_str(n.as_slice(), "h2") {
                assert(network_is(proxy.transfer_protocol, "h2"@));
                let host = match &proxy.host {
                    Some(h) => {
                        let mut v: Vec<String> = Vec::new();
                        v.push(h.clone());
                        assert(crate::text::string_views(v@) =~= seq![h@]);
                        Some(v)
                    },
                    None => None,
                };
                vmess.h2_opts = Some(VmessH2Options { path: clone_opt(&proxy.path), host });
            } else if eq_str(n.as_slice(), "grpc") {
                vmess.grpc_opts = Some(VmessGrpcOptions { service_name: clone_opt(&proxy.path) });
            }
        }
        vmess
    }
}

} // verus!

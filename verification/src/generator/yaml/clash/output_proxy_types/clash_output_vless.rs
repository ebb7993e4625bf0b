//! VLESS proxies in a Clash configuration.
use super::clash_output_shadowsocks::opt_pairs;
use super::clash_output_trojan::{host_header, host_headers, network_is};
use super::common_proxy_options::{common_of, proxy_common, CommonProxyOptions};
use crate::models::proxy::Proxy;
use crate::models::proxy_node::{CombinedProxy, VlessProxy};
use crate::text::{chars_of, clone_opt, eq_str, ovs};
use vstd::prelude::*;

verus! {

/// Reality options.
#[derive(Debug, Clone)]
pub struct RealityOptions {
    pub public_key: String,
    pub short_id: String,
}

/// HTTP transport options; headers map a name to its values, each name once.
#[derive(Debug, Clone)]
pub struct HTTPOptions {
    pub method: Option<String>,
    pub path: Option<Vec<String>>,
    pub headers: Option<Vec<(String, Vec<String>)>>,
}

/// HTTP/2 transport options.
#[derive(Debug, Clone)]
pub struct HTTP2Options {
    pub host: Option<Vec<String>>,
    pub path: Option<String>,
}

/// gRPC transport options.
#[derive(Debug, Clone)]
pub struct GrpcOptions {
    pub grpc_service_name: Option<String>,
}

/// WebSocket transport options; headers are key-value pairs, each key once.
#[derive(Debug, Clone)]
pub struct WSOptions {
    pub path: Option<String>,
    pub headers: Option<Vec<(String, String)>>,
    pub max_early_data: Option<u32>,
    pub early_data_header_name: Option<String>,
    pub v2ray_http_upgrade: Option<bool>,
    pub v2ray_http_upgrade_fast_open: Option<bool>,
}

/// A VLESS proxy.
#[derive(Debug, Clone)]
pub struct VLessProxy {
    pub common: CommonProxyOptions,
    pub uuid: String,
    pub flow: Option<String>,
    pub tls: Option<bool>,
    pub alpn: Option<Vec<String>>,
    pub packet_addr: Option<bool>,
    pub xudp: Option<bool>,
    pub packet_encoding: Option<String>,
    pub network: Option<String>,
    pub reality_opts: Option<RealityOptions>,
    pub http_opts: Option<HTTPOptions>,
    pub h2_opts: Option<HTTP2Options>,
    pub grpc_opts: Option<GrpcOptions>,
    pub ws_opts: Option<WSOptions>,
    pub ws_path: Option<String>,
    pub ws_headers: Option<Vec<(String, String)>>,
    pub servername: Option<String>,
    pub fingerprint: Option<String>,
    pub client_fingerprint: Option<String>,
}

/// The options of a transport other than the given one are absent.
pub open spec fn transports_only(r: VLessProxy, ws: bool, http: bool, h2: bool, grpc: bool) -> bool {
    &&& (r.ws_opts is Some) == ws
    &&& (r.http_opts is Some) == http
    &&& (r.h2_opts is Some) == h2
    &&& (r.grpc_opts is Some) == grpc
}

/// `r` was made from the VLESS details `v` of a node: the details are taken
/// over, UDP comes from them, and the options of the node's network are filled.
pub open spec fn vless_from_details(r: VLessProxy, v: VlessProxy, common: CommonProxyOptions) -> bool {
    &&& r.common == (CommonProxyOptions { udp: Some(v.udp), ..common })
    &&& r.uuid == v.uuid
    &&& r.flow == v.flow
    &&& r.tls == Some(v.tls)
    &&& r.network == v.network
    &&& r.packet_addr == v.packet_addr
    &&& r.xudp == v.xudp
    &&& r.packet_encoding == v.packet_encoding
    &&& r.fingerprint == v.fingerprint
    &&& r.client_fingerprint == v.client_fingerprint
    &&& r.alpn == (if v.alpn@.len() > 0 { Some(v.alpn) } else { None })
    &&& r.reality_opts == (match (v.reality_public_key, v.reality_short_id) {
        (Some(k), Some(i)) => Some(RealityOptions { public_key: k, short_id: i }),
        _ => None,
    })
    &&& r.servername == v.servername
    &&& r.ws_path is None
    &&& r.ws_headers is None
    &&& transports_only(
        r,
        network_is(v.network, "ws"@),
        network_is(v.network, "http"@),
        network_is(v.network, "h2"@),
        network_is(v.network, "grpc"@),
    )
    &&& (r.ws_opts matches Some(o) ==> o == WSOptions {
        path: v.ws_path,
        headers: v.ws_headers,
        max_early_data: None,
        early_data_header_name: None,
        v2ray_http_upgrade: None,
        v2ray_http_upgrade_fast_open: None,
    })
    &&& (r.http_opts matches Some(o) ==> o.method == v.http_method && o.headers == v.http_headers
        && ovs(o.path) == (match v.http_path {
        Some(p) => Some(seq![p@]),
        None => None,
    }))
    &&& (r.h2_opts matches Some(o) ==> o == HTTP2Options { host: v.h2_host, path: v.h2_path })
    &&& (r.grpc_opts matches Some(o) ==> o == GrpcOptions { grpc_service_name: v.grpc_service_name })
}

/// `r` was made from a node without protocol details: no UUID, the node's
/// network, and for `ws` the path and a `Host` header, for `grpc` the path as
/// service name.
pub open spec fn vless_from_plain(r: VLessProxy, p: Proxy) -> bool {
    &&& r.common == proxy_common(p)
    &&& r.uuid@ == Seq::<char>::empty()
    &&& r.network == p.transfer_protocol
    &&& r.flow is None && r.tls is None && r.alpn is None && r.packet_addr is None
    &&& r.xudp is None && r.packet_encoding is None && r.reality_opts is None
    &&& r.servername is None && r.fingerprint is None && r.client_fingerprint is None
    &&& r.http_opts is None && r.h2_opts is None
    &&& transports_only(r, network_is(p.transfer_protocol, "ws"@), false, false, network_is(p.transfer_protocol, "grpc"@))
    &&& (r.ws_opts matches Some(o) ==> o.path is None && o.headers is None && o.max_early_data is None
        && o.early_data_header_name is None && o.v2ray_http_upgrade is None
        && o.v2ray_http_upgrade_fast_open is None)
    &&& (if network_is(p.transfer_protocol, "ws"@) {
        r.ws_path == p.path && opt_pairs(r.ws_headers) == host_header(p.host)
    } else {
        r.ws_path is None && r.ws_headers is None
    })
    &&& (r.grpc_opts matches Some(o) ==> o.grpc_service_name == p.path)
}

/// `r` holds the common options and nothing else.
pub open spec fn vless_bare(r: VLessProxy, common: CommonProxyOptions) -> bool {
    &&& r.common == common
    &&& r.uuid@ == Seq::<char>::empty()
    &&& r.flow is None && r.tls is None && r.alpn is None && r.packet_addr is None
    &&& r.xudp is None && r.packet_encoding is None && r.network is None && r.reality_opts is None
    &&& r.http_opts is None && r.h2_opts is None && r.grpc_opts is None && r.ws_opts is None
    &&& r.ws_path is None && r.ws_headers is None && r.servername is None
    &&& r.fingerprint is None && r.client_fingerprint is None
}

impl VLessProxy {
    /// A VLESS proxy with the given common options and nothing else set.
    pub fn new(common: CommonProxyOptions) -> (r: Self)
        ensures
            vless_bare(r, common),
    {
        Self {
            common,
            uuid: String::new(),
            flow: None,
            tls: None,
            alpn: None,
            packet_addr: None,
            xudp: None,
            packet_encoding: None,
            network: None,
            reality_opts: None,
            http_opts: None,
            h2_opts: None,
            grpc_opts: None,
            ws_opts: None,
            ws_path: None,
            ws_headers: None,
            servername: None,
            fingerprint: None,
            client_fingerprint: None,
        }
    }

    /// `r` is the conversion of `proxy` (see [`Self::from_proxy`]).
    pub open spec fn made_from(r: Self, proxy: Proxy) -> bool {
        &&& match proxy.combined_proxy {
            Some(CombinedProxy::Vless(v)) => vless_from_details(r, v, proxy_common(proxy)),
            Some(_) => vless_bare(r, proxy_common(proxy)),
            None => vless_from_plain(r, proxy)
        }
    }

    /// The VLESS proxy for a node: from its VLESS details when it has them;
    /// from its plain fields when it has no details at all; with only the
    /// common options when it carries details of another protocol.
    pub fn from_proxy(proxy: Proxy) -> (r: Self)
        ensures
            Self::made_from(r, proxy),
    {
        let common = common_of(&proxy);
        let mut vless = VLessProxy::new(common);
        proof {
            reveal_strlit("ws");
            reveal_strlit("http");
            reveal_strlit("h2");
            reveal_strlit("grpc");
            assert("ws"@ != "h2"@) by {
                assert("ws"@[0] != "h2"@[0]);
            }
            assert("http"@ != "grpc"@) by {
                assert("http"@[0] != "grpc"@[0]);
            }
        }
        match proxy.combined_proxy {
            Some(CombinedProxy::Vless(v)) => {
                vless.uuid = v.uuid;
                vless.flow = v.flow;
                vless.tls = Some(v.tls);
                vless.packet_addr = v.packet_addr;
                vless.common.udp = Some(v.udp);
                vless.xudp = v.xudp;
                vless.packet_encoding = v.packet_encoding;
                vless.fingerprint = v.fingerprint;
                vless.client_fingerprint = v.client_fingerprint;
                if v.alpn.len() > 0 {
                    vless.alpn = Some(v.alpn);
                }
                match (v.reality_public_key, v.reality_short_id) {
                    (Some(public_key), Some(short_id)) => {
                        vless.reality_opts = Some(RealityOptions { public_key, short_id });
                    },
                    _ => {},
                }
                if let Some(network) = &v.network {
                    let n = chars_of(network.as_str());
                    assert(n@ == network@);
                    if eq_str(n.as_slice(), "ws") {
                        vless.ws_opts = Some(
                            WSOptions {
                                path: v.ws_path,
                                headers: v.ws_headers,
                                max_early_data: None,
                                early_data_header_name: None,
                                v2ray_http_upgrade: None,
                                v2ray_http_upgrade_fast_open: None,
                            },
                        );
                    } else if eq_str(n.as_slice(), "http") {
                        assert(network_is(v.network, "http"@));
                        let path = match v.http_path {
                            Some(p) => {
                                let mut pv: Vec<String> = Vec::new();
                                pv.push(p);
                                assert(crate::text::string_views(pv@) =~= seq![pv@[0]@]);
                                Some(pv)
                            },
                            None => None,
                        };
                        vless.http_opts = Some(HTTPOptions { method: v.http_method, path, headers: v.http_headers });
                    } else if eq_str(n.as_slice(), "h2") {
                        assert(network_is(v.network, "h2"@));
                        vless.h2_opts = Some(HTTP2Options { host: v.h2_host, path: v.h2_path });
                    } else if eq_str(n.as_slice(), "grpc") {
                        vless.grpc_opts = Some(GrpcOptions { grpc_service_name: v.grpc_service_name });
                    }
                }
                vless.network = v.network;
                vless.servername = v.servername;
            },
            Some(_) => {},
            None => {
                vless.network = clone_opt(&proxy.transfer_protocol);
                if let Some(network) = &proxy.transfer_protocol {
                    let n = chars_of(network.as_str());
                    assert(n@ == network@);
                    if eq_str(n.as_slice(), "ws") {
                        vless.ws_opts = Some(
                            WSOptions {
                                path: None,
                                headers: None,
                                max_early_data: None,
                                early_data_header_name: None,
                                v2ray_http_upgrade: None,
                                v2ray_http_upgrade_fast_open: None,
                            },
                        );
                        vless.ws_path = clone_opt(&proxy.path);
                        vless.ws_headers = host_headers(&proxy.host);
                    } else if eq_str(n.as_slice(), "grpc") {
                        vless.grpc_opts = Some(GrpcOptions { grpc_service_name: clone_opt(&proxy.path) });
                    }
                }
            },
        }
        vless
    }
}

} // verus!

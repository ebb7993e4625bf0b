//! Protocol-specific node details carried by a [`crate::models::proxy::Proxy`].
use vstd::prelude::*;

verus! {

/// AnyTLS node details. The ALPN list holds no value twice.
#[derive(Debug, Clone)]
pub struct AnyTlsProxy {
    pub password: String,
    pub alpn: Option<Vec<String>>,
    pub sni: Option<String>,
    pub skip_cert_verify: Option<bool>,
    pub fingerprint: Option<String>,
    pub client_fingerprint: Option<String>,
    pub udp: Option<bool>,
    pub idle_session_check_interval: Option<i32>,
    pub idle_session_timeout: Option<i32>,
    pub min_idle_session: Option<i32>,
    pub tfo: Option<bool>,
}

impl Default for AnyTlsProxy {
    fn default() -> (r: Self)
        ensures
            r.password@ == Seq::<char>::empty(),
            r.alpn is None,
            r.sni is None,
            r.skip_cert_verify is None,
            r.fingerprint is None,
            r.client_fingerprint is None,
            r.udp is None,
            r.idle_session_check_interval is None,
            r.idle_session_timeout is None,
            r.min_idle_session is None,
            r.tfo is None,
    {
        AnyTlsProxy {
            password: String::new(),
            alpn: None,
            sni: None,
            skip_cert_verify: None,
            fingerprint: None,
            client_fingerprint: None,
            udp: None,
            idle_session_check_interval: None,
            idle_session_timeout: None,
            min_idle_session: None,
            tfo: None,
        }
    }
}

/// Shadowsocks node details.
#[derive(Debug, Clone)]
pub struct ShadowsocksProxy {
    pub server: String,
    pub port: u16,
    pub password: String,
    /// The encryption method.
    pub cipher: String,
    pub udp: Option<bool>,
    pub tfo: Option<bool>,
    pub skip_cert_verify: Option<bool>,
    pub plugin: Option<String>,
    pub plugin_opts: Option<String>,
    pub udp_over_tcp: Option<bool>,
    pub udp_over_tcp_version: Option<u8>,
    pub client_fingerprint: Option<String>,
}

impl Default for ShadowsocksProxy {
    fn default() -> (r: Self)
        ensures
            r.server@ == Seq::<char>::empty(),
            r.port == 0,
            r.password@ == Seq::<char>::empty(),
            r.cipher@ == Seq::<char>::empty(),
            r.udp is None,
            r.tfo is None,
            r.skip_cert_verify is None,
            r.plugin is None,
            r.plugin_opts is None,
            r.udp_over_tcp is None,
            r.udp_over_tcp_version is None,
            r.client_fingerprint is None,
    {
        ShadowsocksProxy {
            server: String::new(),
            port: 0,
            password: String::new(),
            cipher: String::new(),
            udp: None,
            tfo: None,
            skip_cert_verify: None,
            plugin: None,
            plugin_opts: None,
            udp_over_tcp: None,
            udp_over_tcp_version: None,
            client_fingerprint: None,
        }
    }
}

/// VLESS node details. The ALPN list holds no value twice; header lists are
/// keyed by their first component, each key once.
#[derive(Debug, Clone)]
pub struct VlessProxy {
    pub uuid: String,
    pub flow: Option<String>,
    pub tls: bool,
    pub alpn: Vec<String>,
    pub udp: bool,
    pub packet_addr: Option<bool>,
    pub xudp: Option<bool>,
    pub packet_encoding: Option<String>,
    pub network: Option<String>,
    pub reality_public_key: Option<String>,
    pub reality_short_id: Option<String>,
    pub http_method: Option<String>,
    pub http_path: Option<String>,
    pub http_headers: Option<Vec<(String, Vec<String>)>>,
    pub h2_host: Option<Vec<String>>,
    pub h2_path: Option<String>,
    pub grpc_service_name: Option<String>,
    pub ws_path: Option<String>,
    pub ws_headers: Option<Vec<(String, String)>>,
    pub skip_cert_verify: Option<bool>,
    pub fingerprint: Option<String>,
    pub servername: Option<String>,
    pub client_fingerprint: Option<String>,
}

impl Default for VlessProxy {
    fn default() -> (r: Self)
        ensures
            r.uuid@ == Seq::<char>::empty(),
            r.flow is None,
            !r.tls,
            r.alpn@.len() == 0,
            r.udp,
            r.packet_addr is None,
            r.xudp is None,
            r.packet_encoding is None,
            r.network is None,
            r.reality_public_key is None,
            r.reality_short_id is None,
            r.http_method is None,
            r.http_path is None,
            r.http_headers is None,
            r.h2_host is None,
            r.h2_path is None,
            r.grpc_service_name is None,
            r.ws_path is None,
            r.ws_headers is None,
            r.skip_cert_verify is None,
            r.fingerprint is None,
            r.servername is None,
            r.client_fingerprint is None,
    {
        VlessProxy {
            uuid: String::new(),
            flow: None,
            tls: false,
            alpn: Vec::new(),
            udp: true,
            packet_addr: None,
            xudp: None,
            packet_encoding: None,
            network: None,
            reality_public_key: None,
            reality_short_id: None,
            http_method: None,
            http_path: None,
            http_headers: None,
            h2_host: None,
            h2_path: None,
            grpc_service_name: None,
            ws_path: None,
            ws_headers: None,
            skip_cert_verify: None,
            fingerprint: None,
            servername: None,
            client_fingerprint: None,
        }
    }
}

/// The protocol-specific details a node may carry.
#[derive(Debug, Clone)]
pub enum CombinedProxy {
    Vless(VlessProxy),
    Shadowsocks(ShadowsocksProxy),
    AnyTls(AnyTlsProxy),
}

} // verus!

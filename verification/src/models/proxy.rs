//! The proxy node: one server entry of a subscription, whatever its protocol.
use crate::models::proxy_node::CombinedProxy;
use vstd::prelude::*;

verus! {

/// Protocol of a proxy node.
#[derive(Debug, Clone, Copy, PartialEq, Eq, Structural, Hash)]
pub enum ProxyType {
    Unknown,
    Shadowsocks,
    ShadowsocksR,
    VMess,
    Vless,
    Trojan,
    Snell,
    HTTP,
    HTTPS,
    Socks5,
    WireGuard,
    Hysteria,
    Hysteria2,
    AnyTls,
}

/// A proxy node. Fields that a protocol does not use keep their default.
#[derive(Debug, Clone)]
pub struct Proxy {
    /// Protocol of the node.
    pub proxy_type: ProxyType,
    /// Position of the node in its subscription.
    pub id: u32,
    /// Index of the subscription the node came from.
    pub group_id: i32,
    /// Group (subscription) name.
    pub group: String,
    /// Display name.
    pub remark: String,
    /// Server address.
    pub hostname: String,
    /// Server port.
    pub port: u16,
    pub username: Option<String>,
    pub password: Option<String>,
    pub encrypt_method: Option<String>,
    pub plugin: Option<String>,
    pub plugin_option: Option<String>,
    pub protocol: Option<String>,
    pub protocol_param: Option<String>,
    pub obfs: Option<String>,
    pub obfs_param: Option<String>,
    pub user_id: Option<String>,
    pub alter_id: u16,
    pub transfer_protocol: Option<String>,
    pub fake_type: Option<String>,
    pub tls_secure: bool,
    pub host: Option<String>,
    pub path: Option<String>,
    pub edge: Option<String>,
    pub quic_secure: Option<String>,
    pub quic_secret: Option<String>,
    pub udp: Option<bool>,
    pub tcp_fast_open: Option<bool>,
    pub allow_insecure: Option<bool>,
    pub tls13: Option<bool>,
    pub underlying_proxy: Option<String>,
    pub snell_version: u16,
    pub server_name: Option<String>,
    pub self_ip: Option<String>,
    pub self_ipv6: Option<String>,
    pub public_key: Option<String>,
    pub private_key: Option<String>,
    pub pre_shared_key: Option<String>,
    /// DNS servers (WireGuard); no value occurs twice.
    pub dns_servers: Vec<String>,
    pub mtu: u16,
    /// Allowed IP ranges (WireGuard), comma separated.
    pub allowed_ips: String,
    pub keep_alive: u16,
    pub test_url: Option<String>,
    pub client_id: Option<String>,
    pub ports: Option<String>,
    pub up_speed: u32,
    pub down_speed: u32,
    pub auth: Option<String>,
    pub auth_str: Option<String>,
    pub sni: Option<String>,
    pub fingerprint: Option<String>,
    pub ca: Option<String>,
    pub ca_str: Option<String>,
    pub recv_window_conn: u32,
    pub recv_window: u32,
    pub disable_mtu_discovery: Option<bool>,
    pub hop_interval: u32,
    /// ALPN protocols; no value occurs twice.
    pub alpn: Vec<String>,
    pub cwnd: u32,
    pub combined_proxy: Option<CombinedProxy>,
}

/// Number of fields of a [`Proxy`], each named below by its position.
pub const PROXY_FIELD_COUNT: u8 = 60;

/// Position of the `proxy_type` field.
pub const F_PROXY_TYPE: u8 = 0;

/// Position of the `id` field.
pub const F_ID: u8 = 1;

/// Position of the `group_id` field.
pub const F_GROUP_ID: u8 = 2;

/// Position of the `group` field.
pub const F_GROUP: u8 = 3;

/// Position of the `remark` field.
pub const F_REMARK: u8 = 4;

/// Position of the `hostname` field.
pub const F_HOSTNAME: u8 = 5;

/// Position of the `port` field.
pub const F_PORT: u8 = 6;

/// Position of the `username` field.
pub const F_USERNAME: u8 = 7;

/// Position of the `password` field.
pub const F_PASSWORD: u8 = 8;

/// Position of the `encrypt_method` field.
pub const F_ENCRYPT_METHOD: u8 = 9;

/// Position of the `plugin` field.
pub const F_PLUGIN: u8 = 10;

/// Position of the `plugin_option` field.
pub const F_PLUGIN_OPTION: u8 = 11;

/// Position of the `protocol` field.
pub const F_PROTOCOL: u8 = 12;

/// Position of the `protocol_param` field.
pub const F_PROTOCOL_PARAM: u8 = 13;

/// Position of the `obfs` field.
pub const F_OBFS: u8 = 14;

/// Position of the `obfs_param` field.
pub const F_OBFS_PARAM: u8 = 15;

/// Position of the `user_id` field.
pub const F_USER_ID: u8 = 16;

/// Position of the `alter_id` field.
pub const F_ALTER_ID: u8 = 17;

/// Position of the `transfer_protocol` field.
pub const F_TRANSFER_PROTOCOL: u8 = 18;

/// Position of the `fake_type` field.
pub const F_FAKE_TYPE: u8 = 19;

/// Position of the `tls_secure` field.
pub const F_TLS_SECURE: u8 = 20;

/// Position of the `host` field.
pub const F_HOST: u8 = 21;

/// Position of the `path` field.
pub const F_PATH: u8 = 22;

/// Position of the `edge` field.
pub const F_EDGE: u8 = 23;

/// Position of the `quic_secure` field.
pub const F_QUIC_SECURE: u8 = 24;

/// Position of the `quic_secret` field.
pub const F_QUIC_SECRET: u8 = 25;

/// Position of the `udp` field.
pub const F_UDP: u8 = 26;

/// Position of the `tcp_fast_open` field.
pub const F_TCP_FAST_OPEN: u8 = 27;

/// Position of the `allow_insecure` field.
pub const F_ALLOW_INSECURE: u8 = 28;

/// Position of the `tls13` field.
pub const F_TLS13: u8 = 29;

/// Position of the `underlying_proxy` field.
pub const F_UNDERLYING_PROXY: u8 = 30;

/// Position of the `snell_version` field.
pub const F_SNELL_VERSION: u8 = 31;

/// Position of the `server_name` field.
pub const F_SERVER_NAME: u8 = 32;

/// Position of the `self_ip` field.
pub const F_SELF_IP: u8 = 33;

/// Position of the `self_ipv6` field.
pub const F_SELF_IPV6: u8 = 34;

/// Position of the `public_key` field.
pub const F_PUBLIC_KEY: u8 = 35;

/// Position of the `private_key` field.
pub const F_PRIVATE_KEY: u8 = 36;

/// Position of the `pre_shared_key` field.
pub const F_PRE_SHARED_KEY: u8 = 37;

/// Position of the `dns_servers` field.
pub const F_DNS_SERVERS: u8 = 38;

/// Position of the `mtu` field.
pub const F_MTU: u8 = 39;

/// Position of the `allowed_ips` field.
pub const F_ALLOWED_IPS: u8 = 40;

/// Position of the `keep_alive` field.
pub const F_KEEP_ALIVE: u8 = 41;

/// Position of the `test_url` field.
pub const F_TEST_URL: u8 = 42;

/// Position of the `client_id` field.
pub const F_CLIENT_ID: u8 = 43;

/// Position of the `ports` field.
pub const F_PORTS: u8 = 44;

/// Position of the `up_speed` field.
pub const F_UP_SPEED: u8 = 45;

/// Position of the `down_speed` field.
pub const F_DOWN_SPEED: u8 = 46;

/// Position of the `auth` field.
pub const F_AUTH: u8 = 47;

/// Position of the `auth_str` field.
pub const F_AUTH_STR: u8 = 48;

/// Position of the `sni` field.
pub const F_SNI: u8 = 49;

/// Position of the `fingerprint` field.
pub const F_FINGERPRINT: u8 = 50;

/// Position of the `ca` field.
pub const F_CA: u8 = 51;

/// Position of the `ca_str` field.
pub const F_CA_STR: u8 = 52;

/// Position of the `recv_window_conn` field.
pub const F_RECV_WINDOW_CONN: u8 = 53;

/// Position of the `recv_window` field.
pub const F_RECV_WINDOW: u8 = 54;

/// Position of the `disable_mtu_discovery` field.
pub const F_DISABLE_MTU_DISCOVERY: u8 = 55;

/// Position of the `hop_interval` field.
pub const F_HOP_INTERVAL: u8 = 56;

/// Position of the `alpn` field.
pub const F_ALPN: u8 = 57;

/// Position of the `cwnd` field.
pub const F_CWND: u8 = 58;

/// Position of the `combined_proxy` field.
pub const F_COMBINED_PROXY: u8 = 59;

/// The field at position `f` of `p` holds its default value.
pub open spec fn field_is_default(p: &Proxy, f: u8) -> bool {
    if f == F_PROXY_TYPE {
        p.proxy_type == ProxyType::Unknown
    } else if f == F_ID {
        p.id == 0
    } else if f == F_GROUP_ID {
        p.group_id == 0
    } else if f == F_GROUP {
        p.group@ == Seq::<char>::empty()
    } else if f == F_REMARK {
        p.remark@ == Seq::<char>::empty()
    } else if f == F_HOSTNAME {
        p.hostname@ == Seq::<char>::empty()
    } else if f == F_PORT {
        p.port == 0
    } else if f == F_USERNAME {
        p.username is None
    } else if f == F_PASSWORD {
        p.password is None
    } else if f == F_ENCRYPT_METHOD {
        p.encrypt_method is None
    } else if f == F_PLUGIN {
        p.plugin is None
    } else if f == F_PLUGIN_OPTION {
        p.plugin_option is None
    } else if f == F_PROTOCOL {
        p.protocol is None
    } else if f == F_PROTOCOL_PARAM {
        p.protocol_param is None
    } else if f == F_OBFS {
        p.obfs is None
    } else if f == F_OBFS_PARAM {
        p.obfs_param is None
    } else if f == F_USER_ID {
        p.user_id is None
    } else if f == F_ALTER_ID {
        p.alter_id == 0
    } else if f == F_TRANSFER_PROTOCOL {
        p.transfer_protocol is None
    } else if f == F_FAKE_TYPE {
        p.fake_type is None
    } else if f == F_TLS_SECURE {
        !p.tls_secure
    } else if f == F_HOST {
        p.host is None
    } else if f == F_PATH {
        p.path is None
    } else if f == F_EDGE {
        p.edge is None
    } else if f == F_QUIC_SECURE {
        p.quic_secure is None
    } else if f == F_QUIC_SECRET {
        p.quic_secret is None
    } else if f == F_UDP {
        p.udp is None
    } else if f == F_TCP_FAST_OPEN {
        p.tcp_fast_open is None
    } else if f == F_ALLOW_INSECURE {
        p.allow_insecure is None
    } else if f == F_TLS13 {
        p.tls13 is None
    } else if f == F_UNDERLYING_PROXY {
        p.underlying_proxy is None
    } else if f == F_SNELL_VERSION {
        p.snell_version == 0
    } else if f == F_SERVER_NAME {
        p.server_name is None
    } else if f == F_SELF_IP {
        p.self_ip is None
    } else if f == F_SELF_IPV6 {
        p.self_ipv6 is None
    } else if f == F_PUBLIC_KEY {
        p.public_key is None
    } else if f == F_PRIVATE_KEY {
        p.private_key is None
    } else if f == F_PRE_SHARED_KEY {
        p.pre_shared_key is None
    } else if f == F_DNS_SERVERS {
        p.dns_servers@.len() == 0
    } else if f == F_MTU {
        p.mtu == 0
    } else if f == F_ALLOWED_IPS {
        p.allowed_ips@ == Seq::<char>::empty()
    } else if f == F_KEEP_ALIVE {
        p.keep_alive == 0
    } else if f == F_TEST_URL {
        p.test_url is None
    } else if f == F_CLIENT_ID {
        p.client_id is None
    } else if f == F_PORTS {
        p.ports is None
    } else if f == F_UP_SPEED {
        p.up_speed == 0
    } else if f == F_DOWN_SPEED {
        p.down_speed == 0
    } else if f == F_AUTH {
        p.auth is None
    } else if f == F_AUTH_STR {
        p.auth_str is None
    } else if f == F_SNI {
        p.sni is None
    } else if f == F_FINGERPRINT {
        p.fingerprint is None
    } else if f == F_CA {
        p.ca is None
    } else if f == F_CA_STR {
        p.ca_str is None
    } else if f == F_RECV_WINDOW_CONN {
        p.recv_window_conn == 0
    } else if f == F_RECV_WINDOW {
        p.recv_window == 0
    } else if f == F_DISABLE_MTU_DISCOVERY {
        p.disable_mtu_discovery is None
    } else if f == F_HOP_INTERVAL {
        p.hop_interval == 0
    } else if f == F_ALPN {
        p.alpn@.len() == 0
    } else if f == F_CWND {
        p.cwnd == 0
    } else if f == F_COMBINED_PROXY {
        p.combined_proxy is None
    } else {
        true
    }
}

/// Every field of `p` whose position is not in `set` holds its default value.
pub open spec fn others_default(p: &Proxy, set: Set<u8>) -> bool {
    forall|f: u8| f < PROXY_FIELD_COUNT && !set.contains(f) ==> #[trigger] field_is_default(p, f)
}

impl Default for Proxy {
    fn default() -> (r: Self)
        ensures
            others_default(&r, Set::empty()),
    {
        Proxy {
            proxy_type: ProxyType::Unknown,
            id: 0,
            group_id: 0,
            group: String::new(),
            remark: String::new(),
            hostname: String::new(),
            port: 0,
            username: None,
            password: None,
            encrypt_method: None,
            plugin: None,
            plugin_option: None,
            protocol: None,
            protocol_param: None,
            obfs: None,
            obfs_param: None,
            user_id: None,
            alter_id: 0,
            transfer_protocol: None,
            fake_type: None,
            tls_secure: false,
            host: None,
            path: None,
            edge: None,
            quic_secure: None,
            quic_secret: None,
            udp: None,
            tcp_fast_open: None,
            allow_insecure: None,
            tls13: None,
            underlying_proxy: None,
            snell_version: 0,
            server_name: None,
            self_ip: None,
            self_ipv6: None,
            public_key: None,
            private_key: None,
            pre_shared_key: None,
            dns_servers: Vec::new(),
            mtu: 0,
            allowed_ips: String::new(),
            keep_alive: 0,
            test_url: None,
            client_id: None,
            ports: None,
            up_speed: 0,
            down_speed: 0,
            auth: None,
            auth_str: None,
            sni: None,
            fingerprint: None,
            ca: None,
            ca_str: None,
            recv_window_conn: 0,
            recv_window: 0,
            disable_mtu_discovery: None,
            hop_interval: 0,
            alpn: Vec::new(),
            cwnd: 0,
            combined_proxy: None,
        }
    }
}

} // verus!

//! Constructors of proxy nodes for each protocol.
use crate::models::proxy::{
    field_is_default, others_default, PROXY_FIELD_COUNT, Proxy, ProxyType, F_ALLOW_INSECURE, F_ALPN, F_ALTER_ID, F_AUTH_STR, F_CA,
    F_CA_STR, F_CLIENT_ID, F_COMBINED_PROXY, F_CWND, F_DISABLE_MTU_DISCOVERY, F_DNS_SERVERS,
    F_DOWN_SPEED, F_EDGE, F_ENCRYPT_METHOD, F_FAKE_TYPE, F_FINGERPRINT, F_GROUP, F_HOP_INTERVAL,
    F_HOST, F_HOSTNAME, F_KEEP_ALIVE, F_MTU, F_OBFS, F_OBFS_PARAM, F_PASSWORD, F_PATH, F_PLUGIN,
    F_PLUGIN_OPTION, F_PORT, F_PORTS, F_PRE_SHARED_KEY, F_PRIVATE_KEY, F_PROTOCOL,
    F_PROTOCOL_PARAM, F_PROXY_TYPE, F_PUBLIC_KEY, F_QUIC_SECRET, F_QUIC_SECURE, F_RECV_WINDOW,
    F_RECV_WINDOW_CONN, F_REMARK, F_SELF_IP, F_SELF_IPV6, F_SERVER_NAME, F_SNELL_VERSION, F_SNI,
    F_TCP_FAST_OPEN, F_TEST_URL, F_TLS13, F_TLS_SECURE, F_TRANSFER_PROTOCOL, F_UDP,
    F_UNDERLYING_PROXY, F_UP_SPEED, F_USERNAME, F_USER_ID,
};
use crate::models::proxy_node::{CombinedProxy, ShadowsocksProxy};
use crate::text::{chars_of, dedup_seq, non_empty, opt_non_empty, dedup_strings, eq_str, ov, string_of, string_views, trim, trim_chars};
use vstd::prelude::*;

verus! {

/// The fields that every constructor sets.
pub open spec fn common_fields() -> Set<u8> {
    set![
        F_PROXY_TYPE,
        F_GROUP,
        F_REMARK,
        F_HOSTNAME,
        F_PORT,
        F_UDP,
        F_TCP_FAST_OPEN,
        F_ALLOW_INSECURE,
        F_TLS13,
        F_UNDERLYING_PROXY,
    ]
}

/// The fields that identify a node: protocol, group, remark, server and port.
pub open spec fn base_fields() -> Set<u8> {
    set![F_PROXY_TYPE, F_GROUP, F_REMARK, F_HOSTNAME, F_PORT]
}

/// The UUID a VMess node gets when none is given.
pub open spec fn zero_uuid() -> Seq<char> {
    "00000000-0000-0000-0000-000000000000"@
}

impl Proxy {
    /// A node of the given protocol with the fields every protocol shares.
    pub fn common_construct(
        proxy_type: ProxyType,
        group: &str,
        remark: &str,
        server: &str,
        port: u16,
        udp: Option<bool>,
        tfo: Option<bool>,
        scv: Option<bool>,
        tls13: Option<bool>,
        underlying_proxy: &str,
    ) -> (r: Self)
        ensures
            r.proxy_type == proxy_type,
            r.group@ == group@,
            r.remark@ == remark@,
            r.hostname@ == server@,
            r.port == port,
            r.udp == udp,
            r.tcp_fast_open == tfo,
            r.allow_insecure == scv,
            r.tls13 == tls13,
            ov(r.underlying_proxy) == Some(underlying_proxy@),
            others_default(&r, common_fields()),
    {
        let mut p = Proxy::default();
        let ghost d = p;
        p.proxy_type = proxy_type;
        p.group = group.to_owned();
        p.remark = remark.to_owned();
        p.hostname = server.to_owned();
        p.port = port;
        p.udp = udp;
        p.tcp_fast_open = tfo;
        p.allow_insecure = scv;
        p.tls13 = tls13;
        p.underlying_proxy = Some(underlying_proxy.to_owned());
        assert forall|f: u8| f < PROXY_FIELD_COUNT && !common_fields().contains(f) implies #[trigger] field_is_default(&p, f) by {
            assert(field_is_default(&d, f));
        }
        p
    }

    /// A VMess node. Without an id it gets the all-zero UUID, without a
    /// network `tcp`; an empty cipher, edge or SNI is left unset, and TLS is
    /// on exactly for `tls`. A QUIC node keeps `host` and `path` as its QUIC
    /// security and key; any other gets a trimmed host, or the server itself
    /// where the host is empty and the server is not an IP address (as
    /// `add_is_ip` tells), and a trimmed path, or `/` where it is empty.
    pub fn vmess_construct(
        group: &str,
        remark: &str,
        add: &str,
        port: u16,
        typ: &str,
        id: &str,
        aid: u16,
        net: &str,
        cipher: &str,
        path: &str,
        host: &str,
        edge: &str,
        tls: &str,
        sni: &str,
        udp: Option<bool>,
        tfo: Option<bool>,
        scv: Option<bool>,
        tls13: Option<bool>,
        underlying_proxy: &str,
        add_is_ip: bool,
    ) -> (r: Self)
        ensures
            r.proxy_type == ProxyType::VMess,
            r.group@ == group@,
            r.remark@ == remark@,
            r.hostname@ == add@,
            r.port == port,
            r.udp == udp,
            r.tcp_fast_open == tfo,
            r.allow_insecure == scv,
            r.tls13 == tls13,
            ov(r.underlying_proxy) == Some(underlying_proxy@),
            ov(r.user_id) == Some(
                if id@.len() == 0 {
                    zero_uuid()
                } else {
                    id@
                },
            ),
            r.alter_id == aid,
            ov(r.encrypt_method) == non_empty(cipher@),
            ov(r.transfer_protocol) == Some(
                if net@.len() == 0 {
                    "tcp"@
                } else {
                    net@
                },
            ),
            ov(r.edge) == non_empty(edge@),
            ov(r.server_name) == non_empty(sni@),
            r.tls_secure == (tls@ == "tls"@),
            net@ == "quic"@ ==> {
                &&& ov(r.quic_secure) == Some(host@)
                &&& ov(r.quic_secret) == Some(path@)
                &&& r.host is None
                &&& r.path is None
            },
            net@ != "quic"@ ==> {
                &&& ov(r.host) == Some(
                    if host@.len() == 0 && !add_is_ip {
                        add@
                    } else {
                        trim(host@)
                    },
                )
                &&& ov(r.path) == Some(
                    if path@.len() == 0 {
                        "/"@
                    } else {
                        trim(path@)
                    },
                )
                &&& r.quic_secure is None
                &&& r.quic_secret is None
            },
            ov(r.fake_type) == Some(typ@),
            others_default(
                &r,
                common_fields() + set![
                    F_USER_ID,
                    F_ALTER_ID,
                    F_ENCRYPT_METHOD,
                    F_TRANSFER_PROTOCOL,
                    F_EDGE,
                    F_SERVER_NAME,
                    F_TLS_SECURE,
                    F_QUIC_SECURE,
                    F_QUIC_SECRET,
                    F_HOST,
                    F_PATH,
                    F_FAKE_TYPE,
                ],
            ),
    {
        let mut p = Proxy::common_construct(
            ProxyType::VMess,
            group,
            remark,
            add,
            port,
            udp,
            tfo,
            scv,
            tls13,
            underlying_proxy,
        );
        let ghost d = p;
        assert(field_is_default(&d, F_HOST) && field_is_default(&d, F_PATH));
        assert(field_is_default(&d, F_QUIC_SECURE) && field_is_default(&d, F_QUIC_SECRET));
        p.user_id = if id.is_empty() {
            Some("00000000-0000-0000-0000-000000000000".to_owned())
        } else {
            Some(id.to_owned())
        };
        p.alter_id = aid;
        p.encrypt_method = opt_non_empty(cipher);
        p.transfer_protocol = Some(
            if net.is_empty() {
                "tcp"
            } else {
                net
            }.to_owned(),
        );
        p.edge = opt_non_empty(edge);
        p.server_name = opt_non_empty(sni);
        let tls_chars = chars_of(tls);
        p.tls_secure = eq_str(tls_chars.as_slice(), "tls");
        let net_chars = chars_of(net);
        if eq_str(net_chars.as_slice(), "quic") {
            p.quic_secure = Some(host.to_owned());
            p.quic_secret = Some(path.to_owned());
        } else {
            p.host = Some(
                if host.is_empty() && !add_is_ip {
                    add.to_owned()
                } else {
                    let h = chars_of(host);
                    string_of(trim_chars(h.as_slice()).as_slice())
                },
            );
            p.path = Some(
                if path.is_empty() {
                    "/".to_owned()
                } else {
                    let t = chars_of(path);
                    string_of(trim_chars(t.as_slice()).as_slice())
                },
            );
        }
        p.fake_type = Some(typ.to_owned());
        let ghost set = common_fields() + set![
            F_USER_ID,
            F_ALTER_ID,
            F_ENCRYPT_METHOD,
            F_TRANSFER_PROTOCOL,
            F_EDGE,
            F_SERVER_NAME,
            F_TLS_SECURE,
            F_QUIC_SECURE,
            F_QUIC_SECRET,
            F_HOST,
            F_PATH,
            F_FAKE_TYPE,
        ];
        assert forall|f: u8| f < PROXY_FIELD_COUNT && !set.contains(f) implies #[trigger] field_is_default(&p, f) by {
            assert(field_is_default(&d, f));
        }
        proof {
            reveal_strlit("00000000-0000-0000-0000-000000000000");
        }
        p
    }

    /// A ShadowsocksR node.
    pub fn ssr_construct(
        group: &str,
        remark: &str,
        server: &str,
        port: u16,
        protocol: &str,
        method: &str,
        obfs: &str,
        password: &str,
        obfs_param: &str,
        proto_param: &str,
        udp: Option<bool>,
        tfo: Option<bool>,
        scv: Option<bool>,
        underlying_proxy: &str,
    ) -> (r: Self)
        ensures
            r.proxy_type == ProxyType::ShadowsocksR,
            r.group@ == group@,
            r.remark@ == remark@,
            r.hostname@ == server@,
            r.port == port,
            r.udp == udp,
            r.tcp_fast_open == tfo,
            r.allow_insecure == scv,
            r.tls13 is None,
            ov(r.underlying_proxy) == Some(underlying_proxy@),
            ov(r.password) == Some(password@),
            ov(r.encrypt_method) == Some(method@),
            ov(r.protocol) == Some(protocol@),
            ov(r.protocol_param) == Some(proto_param@),
            ov(r.obfs) == Some(obfs@),
            ov(r.obfs_param) == Some(obfs_param@),
            others_default(
                &r,
                common_fields() + set![F_PASSWORD, F_ENCRYPT_METHOD, F_PROTOCOL, F_PROTOCOL_PARAM, F_OBFS, F_OBFS_PARAM],
            ),
    {
        let mut p = Proxy::common_construct(
            ProxyType::ShadowsocksR,
            group,
            remark,
            server,
            port,
            udp,
            tfo,
            scv,
            None,
            underlying_proxy,
        );
        let ghost d = p;
        p.password = Some(password.to_owned());
        p.encrypt_method = Some(method.to_owned());
        p.protocol = Some(protocol.to_owned());
        p.protocol_param = Some(proto_param.to_owned());
        p.obfs = Some(obfs.to_owned());
        p.obfs_param = Some(obfs_param.to_owned());
        let ghost set = common_fields() + set![F_PASSWORD, F_ENCRYPT_METHOD, F_PROTOCOL, F_PROTOCOL_PARAM, F_OBFS, F_OBFS_PARAM];
        assert forall|f: u8| f < PROXY_FIELD_COUNT && !set.contains(f) implies #[trigger] field_is_default(&p, f) by {
            assert(field_is_default(&d, f));
        }
        p
    }

    /// A Shadowsocks node; its details are also kept as a combined record.
    pub fn ss_construct(
        group: &str,
        remark: &str,
        server: &str,
        port: u16,
        password: &str,
        method: &str,
        plugin: &str,
        plugin_opts: &str,
        udp: Option<bool>,
        tfo: Option<bool>,
        scv: Option<bool>,
        tls13: Option<bool>,
        underlying_proxy: &str,
    ) -> (r: Self)
        ensures
            r.proxy_type == ProxyType::Shadowsocks,
            r.group@ == group@,
            r.remark@ == remark@,
            r.hostname@ == server@,
            r.port == port,
            r.udp == udp,
            r.tcp_fast_open == tfo,
            r.allow_insecure == scv,
            r.tls13 == tls13,
            ov(r.underlying_proxy) == Some(underlying_proxy@),
            ov(r.password) == Some(password@),
            ov(r.encrypt_method) == Some(method@),
            ov(r.plugin) == Some(plugin@),
            ov(r.plugin_option) == Some(plugin_opts@),
            r.combined_proxy matches Some(CombinedProxy::Shadowsocks(ss)) && {
                &&& ss.server@ == server@
                &&& ss.port == port
                &&& ss.password@ == password@
                &&& ss.cipher@ == method@
                &&& ss.udp == udp
                &&& ss.tfo == tfo
                &&& ss.skip_cert_verify == scv
                &&& ov(ss.plugin) == non_empty(plugin@)
                &&& ov(ss.plugin_opts) == non_empty(plugin_opts@)
                &&& ss.udp_over_tcp is None
                &&& ss.udp_over_tcp_version is None
                &&& ss.client_fingerprint is None
            },
            others_default(
                &r,
                common_fields() + set![F_COMBINED_PROXY, F_PASSWORD, F_ENCRYPT_METHOD, F_PLUGIN, F_PLUGIN_OPTION],
            ),
    {
        let mut p = Proxy::common_construct(
            ProxyType::Shadowsocks,
            group,
            remark,
            server,
            port,
            udp,
            tfo,
            scv,
            tls13,
            underlying_proxy,
        );
        let ghost d = p;
        let ss = ShadowsocksProxy {
            server: server.to_owned(),
            port,
            password: password.to_owned(),
            cipher: method.to_owned(),
            udp,
            tfo,
            skip_cert_verify: scv,
            plugin: opt_non_empty(plugin),
            plugin_opts: opt_non_empty(plugin_opts),
            udp_over_tcp: None,
            udp_over_tcp_version: None,
            client_fingerprint: None,
        };
        p.combined_proxy = Some(CombinedProxy::Shadowsocks(ss));
        p.password = Some(password.to_owned());
        p.encrypt_method = Some(method.to_owned());
        p.plugin = Some(plugin.to_owned());
        p.plugin_option = Some(plugin_opts.to_owned());
        let ghost set = common_fields() + set![F_COMBINED_PROXY, F_PASSWORD, F_ENCRYPT_METHOD, F_PLUGIN, F_PLUGIN_OPTION];
        assert forall|f: u8| f < PROXY_FIELD_COUNT && !set.contains(f) implies #[trigger] field_is_default(&p, f) by {
            assert(field_is_default(&d, f));
        }
        p
    }

    /// A SOCKS5 node.
    pub fn socks_construct(
        group: &str,
        remark: &str,
        server: &str,
        port: u16,
        username: &str,
        password: &str,
        udp: Option<bool>,
        tfo: Option<bool>,
        scv: Option<bool>,
        underlying_proxy: &str,
    ) -> (r: Self)
        ensures
            r.proxy_type == ProxyType::Socks5,
            r.group@ == group@,
            r.remark@ == remark@,
            r.hostname@ == server@,
            r.port == port,
            r.udp == udp,
            r.tcp_fast_open == tfo,
            r.allow_insecure == scv,
            r.tls13 is None,
            ov(r.underlying_proxy) == Some(underlying_proxy@),
            ov(r.username) == Some(username@),
            ov(r.password) == Some(password@),
            others_default(&r, common_fields() + set![F_USERNAME, F_PASSWORD]),
    {
        let mut p = Proxy::common_construct(
            ProxyType::Socks5,
            group,
            remark,
            server,
            port,
            udp,
            tfo,
            scv,
            None,
            underlying_proxy,
        );
        let ghost d = p;
        p.username = Some(username.to_owned());
        p.password = Some(password.to_owned());
        let ghost set = common_fields() + set![F_USERNAME, F_PASSWORD];
        assert forall|f: u8| f < PROXY_FIELD_COUNT && !set.contains(f) implies #[trigger] field_is_default(&p, f) by {
            assert(field_is_default(&d, f));
        }
        p
    }

    /// An HTTP node, or an HTTPS node when `tls` is set.
    pub fn http_construct(
        group: &str,
        remark: &str,
        server: &str,
        port: u16,
        username: &str,
        password: &str,
        tls: bool,
        tfo: Option<bool>,
        scv: Option<bool>,
        tls13: Option<bool>,
        underlying_proxy: &str,
    ) -> (r: Self)
        ensures
            r.proxy_type == (if tls { ProxyType::HTTPS } else { ProxyType::HTTP }),
            r.group@ == group@,
            r.remark@ == remark@,
            r.hostname@ == server@,
            r.port == port,
            r.udp is None,
            r.tcp_fast_open == tfo,
            r.allow_insecure == scv,
            r.tls13 == tls13,
            ov(r.underlying_proxy) == Some(underlying_proxy@),
            ov(r.username) == Some(username@),
            ov(r.password) == Some(password@),
            r.tls_secure == tls,
            others_default(&r, common_fields() + set![F_USERNAME, F_PASSWORD, F_TLS_SECURE]),
    {
        let mut p = Proxy::common_construct(
            if tls {
                ProxyType::HTTPS
            } else {
                ProxyType::HTTP
            },
            group,
            remark,
            server,
            port,
            None,
            tfo,
            scv,
            tls13,
            underlying_proxy,
        );
        let ghost d = p;
        p.username = Some(username.to_owned());
        p.password = Some(password.to_owned());
        p.tls_secure = tls;
        let ghost set = common_fields() + set![F_USERNAME, F_PASSWORD, F_TLS_SECURE];
        assert forall|f: u8| f < PROXY_FIELD_COUNT && !set.contains(f) implies #[trigger] field_is_default(&p, f) by {
            assert(field_is_default(&d, f));
        }
        p
    }

    /// A Trojan node.
    pub fn trojan_construct(
        group: String,
        remark: String,
        hostname: String,
        port: u16,
        password: String,
        network: Option<String>,
        host: Option<String>,
        path: Option<String>,
        sni: Option<String>,
        tls_secure: bool,
        udp: Option<bool>,
        tfo: Option<bool>,
        allow_insecure: Option<bool>,
        tls13: Option<bool>,
        underlying_proxy: Option<String>,
    ) -> (r: Self)
        ensures
            r.proxy_type == ProxyType::Trojan,
            r.group == group,
            r.remark == remark,
            r.hostname == hostname,
            r.port == port,
            r.password == Some(password),
            r.transfer_protocol == network,
            r.host == host,
            r.path == path,
            r.sni == sni,
            r.tls_secure == tls_secure,
            r.udp == udp,
            r.tcp_fast_open == tfo,
            r.allow_insecure == allow_insecure,
            r.tls13 == tls13,
            r.underlying_proxy == underlying_proxy,
            others_default(
                &r,
                common_fields() + set![F_PASSWORD, F_TRANSFER_PROTOCOL, F_HOST, F_PATH, F_SNI, F_TLS_SECURE],
            ),
    {
        let mut p = Proxy::default();
        let ghost d = p;
        p.proxy_type = ProxyType::Trojan;
        p.group = group;
        p.remark = remark;
        p.hostname = hostname;
        p.port = port;
        p.password = Some(password);
        p.transfer_protocol = network;
        p.host = host;
        p.path = path;
        p.sni = sni;
        p.tls_secure = tls_secure;
        p.udp = udp;
        p.tcp_fast_open = tfo;
        p.allow_insecure = allow_insecure;
        p.tls13 = tls13;
        p.underlying_proxy = underlying_proxy;
        let ghost set = common_fields() + set![F_PASSWORD, F_TRANSFER_PROTOCOL, F_HOST, F_PATH, F_SNI, F_TLS_SECURE];
        assert forall|f: u8| f < PROXY_FIELD_COUNT && !set.contains(f) implies #[trigger] field_is_default(&p, f) by {
            assert(field_is_default(&d, f));
        }
        p
    }

    /// A Snell node.
    pub fn snell_construct(
        group: String,
        remark: String,
        hostname: String,
        port: u16,
        password: String,
        obfs: String,
        host: String,
        version: u16,
        udp: Option<bool>,
        tfo: Option<bool>,
        allow_insecure: Option<bool>,
        underlying_proxy: Option<String>,
    ) -> (r: Self)
        ensures
            r.proxy_type == ProxyType::Snell,
            r.group == group,
            r.remark == remark,
            r.hostname == hostname,
            r.port == port,
            r.password == Some(password),
            r.obfs == Some(obfs),
            r.host == Some(host),
            r.snell_version == version,
            r.udp == udp,
            r.tcp_fast_open == tfo,
            r.allow_insecure == allow_insecure,
            r.underlying_proxy == underlying_proxy,
            others_default(
                &r,
                base_fields() + set![F_PASSWORD, F_OBFS, F_HOST, F_SNELL_VERSION, F_UDP, F_TCP_FAST_OPEN, F_ALLOW_INSECURE, F_UNDERLYING_PROXY],
            ),
    {
        let mut p = Proxy::default();
        let ghost d = p;
        p.proxy_type = ProxyType::Snell;
        p.group = group;
        p.remark = remark;
        p.hostname = hostname;
        p.port = port;
        p.password = Some(password);
        p.obfs = Some(obfs);
        p.host = Some(host);
        p.snell_version = version;
        p.udp = udp;
        p.tcp_fast_open = tfo;
        p.allow_insecure = allow_insecure;
        p.underlying_proxy = underlying_proxy;
        let ghost set = base_fields() + set![F_PASSWORD, F_OBFS, F_HOST, F_SNELL_VERSION, F_UDP, F_TCP_FAST_OPEN, F_ALLOW_INSECURE, F_UNDERLYING_PROXY];
        assert forall|f: u8| f < PROXY_FIELD_COUNT && !set.contains(f) implies #[trigger] field_is_default(&p, f) by {
            assert(field_is_default(&d, f));
        }
        p
    }

    /// A WireGuard node. DNS servers are kept as a set: each once, in the
    /// order of their first occurrence.
    pub fn wireguard_construct(
        group: String,
        remark: String,
        hostname: String,
        port: u16,
        self_ip: String,
        self_ipv6: String,
        private_key: String,
        public_key: String,
        preshared_key: String,
        dns_servers: Vec<String>,
        mtu: Option<u16>,
        keep_alive: Option<u16>,
        test_url: String,
        client_id: String,
        udp: Option<bool>,
        underlying_proxy: Option<String>,
    ) -> (r: Self)
        ensures
            r.proxy_type == ProxyType::WireGuard,
            r.group == group,
            r.remark == remark,
            r.hostname == hostname,
            r.port == port,
            r.self_ip == Some(self_ip),
            r.self_ipv6 == Some(self_ipv6),
            r.private_key == Some(private_key),
            r.public_key == Some(public_key),
            r.pre_shared_key == Some(preshared_key),
            string_views(r.dns_servers@) == dedup_seq(string_views(dns_servers@)),
            r.mtu == (match mtu { Some(m) => m, None => 0 }),
            r.keep_alive == (match keep_alive { Some(k) => k, None => 0 }),
            r.test_url == Some(test_url),
            r.client_id == Some(client_id),
            r.udp == udp,
            r.underlying_proxy == underlying_proxy,
            others_default(
                &r,
                base_fields() + set![F_SELF_IP, F_SELF_IPV6, F_PRIVATE_KEY, F_PUBLIC_KEY, F_PRE_SHARED_KEY, F_DNS_SERVERS, F_MTU, F_KEEP_ALIVE, F_TEST_URL, F_CLIENT_ID, F_UDP, F_UNDERLYING_PROXY],
            ),
    {
        let dns = dedup_strings(&dns_servers);
        let mut p = Proxy::default();
        let ghost d = p;
        p.proxy_type = ProxyType::WireGuard;
        p.group = group;
        p.remark = remark;
        p.hostname = hostname;
        p.port = port;
        p.self_ip = Some(self_ip);
        p.self_ipv6 = Some(self_ipv6);
        p.private_key = Some(private_key);
        p.public_key = Some(public_key);
        p.pre_shared_key = Some(preshared_key);
        p.dns_servers = dns;
        p.mtu = match mtu {
            Some(m) => m,
            None => 0,
        };
        p.keep_alive = match keep_alive {
            Some(k) => k,
            None => 0,
        };
        p.test_url = Some(test_url);
        p.client_id = Some(client_id);
        p.udp = udp;
        p.underlying_proxy = underlying_proxy;
        let ghost set = base_fields() + set![F_SELF_IP, F_SELF_IPV6, F_PRIVATE_KEY, F_PUBLIC_KEY, F_PRE_SHARED_KEY, F_DNS_SERVERS, F_MTU, F_KEEP_ALIVE, F_TEST_URL, F_CLIENT_ID, F_UDP, F_UNDERLYING_PROXY];
        assert forall|f: u8| f < PROXY_FIELD_COUNT && !set.contains(f) implies #[trigger] field_is_default(&p, f) by {
            assert(field_is_default(&d, f));
        }
        p
    }

    /// A Hysteria2 node. ALPN protocols are kept as a set: each once, in the
    /// order of their first occurrence.
    pub fn hysteria2_construct(
        group: String,
        remark: String,
        hostname: String,
        port: u16,
        ports: Option<String>,
        up_speed: Option<u32>,
        down_speed: Option<u32>,
        password: String,
        obfs: Option<String>,
        obfs_param: Option<String>,
        sni: Option<String>,
        fingerprint: Option<String>,
        alpn: Vec<String>,
        ca: Option<String>,
        ca_str: Option<String>,
        cwnd: Option<u32>,
        tcp_fast_open: Option<bool>,
        allow_insecure: Option<bool>,
        underlying_proxy: Option<String>,
    ) -> (r: Self)
        ensures
            r.proxy_type == ProxyType::Hysteria2,
            r.group == group,
            r.remark == remark,
            r.hostname == hostname,
            r.port == port,
            r.ports == ports,
            r.up_speed == (match up_speed { Some(v) => v, None => 0 }),
            r.down_speed == (match down_speed { Some(v) => v, None => 0 }),
            r.password == Some(password),
            r.obfs == obfs,
            r.obfs_param == obfs_param,
            r.sni == sni,
            r.fingerprint == fingerprint,
            string_views(r.alpn@) == dedup_seq(string_views(alpn@)),
            r.ca == ca,
            r.ca_str == ca_str,
            r.cwnd == (match cwnd { Some(v) => v, None => 0 }),
            r.tcp_fast_open == tcp_fast_open,
            r.allow_insecure == allow_insecure,
            r.underlying_proxy == underlying_proxy,
            others_default(
                &r,
                base_fields() + set![F_PORTS, F_UP_SPEED, F_DOWN_SPEED, F_PASSWORD, F_OBFS, F_OBFS_PARAM, F_SNI, F_FINGERPRINT, F_ALPN, F_CA, F_CA_STR, F_CWND, F_TCP_FAST_OPEN, F_ALLOW_INSECURE, F_UNDERLYING_PROXY],
            ),
    {
        let alpn_set = dedup_strings(&alpn);
        let mut p = Proxy::default();
        let ghost d = p;
        p.proxy_type = ProxyType::Hysteria2;
        p.group = group;
        p.remark = remark;
        p.hostname = hostname;
        p.port = port;
        p.ports = ports;
        p.up_speed = match up_speed {
            Some(v) => v,
            None => 0,
        };
        p.down_speed = match down_speed {
            Some(v) => v,
            None => 0,
        };
        p.password = Some(password);
        p.obfs = obfs;
        p.obfs_param = obfs_param;
        p.sni = sni;
        p.fingerprint = fingerprint;
        p.alpn = alpn_set;
        p.ca = ca;
        p.ca_str = ca_str;
        p.cwnd = match cwnd {
            Some(v) => v,
            None => 0,
        };
        p.tcp_fast_open = tcp_fast_open;
        p.allow_insecure = allow_insecure;
        p.underlying_proxy = underlying_proxy;
        let ghost set = base_fields() + set![F_PORTS, F_UP_SPEED, F_DOWN_SPEED, F_PASSWORD, F_OBFS, F_OBFS_PARAM, F_SNI, F_FINGERPRINT, F_ALPN, F_CA, F_CA_STR, F_CWND, F_TCP_FAST_OPEN, F_ALLOW_INSECURE, F_UNDERLYING_PROXY];
        assert forall|f: u8| f < PROXY_FIELD_COUNT && !set.contains(f) implies #[trigger] field_is_default(&p, f) by {
            assert(field_is_default(&d, f));
        }
        p
    }

    /// A Hysteria node. ALPN protocols are kept as a set: each once, in the
    /// order of their first occurrence.
    pub fn hysteria_construct(
        group: String,
        remark: String,
        hostname: String,
        port: u16,
        ports: String,
        protocol: String,
        obfs_param: String,
        up_speed: Option<u32>,
        down_speed: Option<u32>,
        auth_str: String,
        obfs: String,
        sni: String,
        fingerprint: String,
        ca: String,
        ca_str: String,
        recv_window_conn: Option<u32>,
        recv_window: Option<u32>,
        disable_mtu_discovery: Option<bool>,
        hop_interval: Option<u32>,
        alpn: Vec<String>,
        tcp_fast_open: Option<bool>,
        allow_insecure: Option<bool>,
        underlying_proxy: Option<String>,
    ) -> (r: Self)
        ensures
            r.proxy_type == ProxyType::Hysteria,
            r.group == group,
            r.remark == remark,
            r.hostname == hostname,
            r.port == port,
            r.ports == Some(ports),
            r.protocol == Some(protocol),
            r.obfs_param == Some(obfs_param),
            r.up_speed == (match up_speed { Some(v) => v, None => 0 }),
            r.down_speed == (match down_speed { Some(v) => v, None => 0 }),
            r.auth_str == Some(auth_str),
            r.obfs == Some(obfs),
            r.sni == Some(sni),
            r.fingerprint == Some(fingerprint),
            r.ca == Some(ca),
            r.ca_str == Some(ca_str),
            r.recv_window_conn == (match recv_window_conn { Some(v) => v, None => 0 }),
            r.recv_window == (match recv_window { Some(v) => v, None => 0 }),
            r.disable_mtu_discovery == disable_mtu_discovery,
            r.hop_interval == (match hop_interval { Some(v) => v, None => 0 }),
            string_views(r.alpn@) == dedup_seq(string_views(alpn@)),
            r.tcp_fast_open == tcp_fast_open,
            r.allow_insecure == allow_insecure,
            r.underlying_proxy == underlying_proxy,
            others_default(
                &r,
                base_fields() + set![F_PORTS, F_PROTOCOL, F_OBFS_PARAM, F_UP_SPEED, F_DOWN_SPEED, F_AUTH_STR, F_OBFS, F_SNI, F_FINGERPRINT, F_CA, F_CA_STR, F_RECV_WINDOW_CONN, F_RECV_WINDOW, F_DISABLE_MTU_DISCOVERY, F_HOP_INTERVAL, F_ALPN, F_TCP_FAST_OPEN, F_ALLOW_INSECURE, F_UNDERLYING_PROXY],
            ),
    {
        let alpn_set = dedup_strings(&alpn);
        let mut p = Proxy::default();
        let ghost d = p;
        p.proxy_type = ProxyType::Hysteria;
        p.group = group;
        p.remark = remark;
        p.hostname = hostname;
        p.port = port;
        p.ports = Some(ports);
        p.protocol = Some(protocol);
        p.obfs_param = Some(obfs_param);
        p.up_speed = match up_speed {
            Some(v) => v,
            None => 0,
        };
        p.down_speed = match down_speed {
            Some(v) => v,
            None => 0,
        };
        p.auth_str = Some(auth_str);
        p.obfs = Some(obfs);
        p.sni = Some(sni);
        p.fingerprint = Some(fingerprint);
        p.ca = Some(ca);
        p.ca_str = Some(ca_str);
        p.recv_window_conn = match recv_window_conn {
            Some(v) => v,
            None => 0,
        };
        p.recv_window = match recv_window {
            Some(v) => v,
            None => 0,
        };
        p.disable_mtu_discovery = disable_mtu_discovery;
        p.hop_interval = match hop_interval {
            Some(v) => v,
            None => 0,
        };
        p.alpn = alpn_set;
        p.tcp_fast_open = tcp_fast_open;
        p.allow_insecure = allow_insecure;
        p.underlying_proxy = underlying_proxy;
        let ghost set = base_fields() + set![F_PORTS, F_PROTOCOL, F_OBFS_PARAM, F_UP_SPEED, F_DOWN_SPEED, F_AUTH_STR, F_OBFS, F_SNI, F_FINGERPRINT, F_CA, F_CA_STR, F_RECV_WINDOW_CONN, F_RECV_WINDOW, F_DISABLE_MTU_DISCOVERY, F_HOP_INTERVAL, F_ALPN, F_TCP_FAST_OPEN, F_ALLOW_INSECURE, F_UNDERLYING_PROXY];
        assert forall|f: u8| f < PROXY_FIELD_COUNT && !set.contains(f) implies #[trigger] field_is_default(&p, f) by {
            assert(field_is_default(&d, f));
        }
        p
    }
}

} // verus!

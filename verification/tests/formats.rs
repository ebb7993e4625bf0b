use subconverter::generator::config::formats::mellow::{mellow_group_line, mellow_proxy_line};
use subconverter::generator::config::formats::single::{
    proxy_to_single, single_link, vmess_link_construct, ProxyUriTypes,
};
use subconverter::models::extra_settings::ExtraSettings;
use subconverter::models::proxy::{Proxy, ProxyType};
use subconverter::settings::Settings;
use subconverter::models::proxy_group_config::{ProxyGroupConfig, ProxyGroupType};
use subconverter::utils::base64::{base64_encode, url_safe_base64_apply, url_safe_base64_encode};
use subconverter::utils::url::url_encode;

fn node(t: ProxyType) -> Proxy {
    let mut p = Proxy::default();
    p.proxy_type = t;
    p.hostname = "h.example".to_string();
    p.port = 8443;
    p
}

fn only(ss: bool, ssr: bool, vmess: bool, trojan: bool) -> ProxyUriTypes {
    ProxyUriTypes { ss, ssr, vmess, trojan }
}

#[test]
fn base64_forms() {
    assert_eq!(base64_encode(""), "");
    assert_eq!(base64_encode("h"), "aA==");
    assert_eq!(base64_encode("hi"), "aGk=");
    assert_eq!(base64_encode("hello"), "aGVsbG8=");
    assert_eq!(base64_encode("ÿ?>"), "w78/Pg==");
    assert_eq!(url_safe_base64_encode("ÿ?>"), "w78_Pg");
    assert_eq!(url_safe_base64_encode("aes-128-gcm:pw"), "YWVzLTEyOC1nY206cHc");
    assert_eq!(url_safe_base64_apply("a+b/c=="), "a-b_c");
}

#[test]
fn url_encoding() {
    assert_eq!(url_encode("aZ09-_.~"), "aZ09-_.~");
    assert_eq!(
        url_encode("obfs-local;obfs=http;obfs-host=a.com"),
        "obfs-local%3Bobfs%3Dhttp%3Bobfs-host%3Da.com"
    );
    assert_eq!(url_encode("节点 1"), "%E8%8A%82%E7%82%B9%201");
}

#[test]
fn mellow_lines_for_nodes() {
    let mut s = node(ProxyType::Shadowsocks);
    s.remark = "S".to_string();
    s.encrypt_method = Some("aes-128-gcm".to_string());
    s.password = Some("pw".to_string());
    assert_eq!(
        mellow_proxy_line(&s, None, None).unwrap(),
        "S, ss, ss://YWVzLTEyOC1nY206cHc/h.example:8443"
    );
    s.plugin = Some("obfs-local".to_string());
    assert_eq!(mellow_proxy_line(&s, None, None), None);
    let mut v = node(ProxyType::VMess);
    v.remark = "V".to_string();
    v.user_id = Some("uuid".to_string());
    v.path = Some("/p".to_string());
    v.transfer_protocol = Some("ws".to_string());
    v.host = Some("a b".to_string());
    v.tls_secure = true;
    assert_eq!(
        mellow_proxy_line(&v, Some(true), Some(false)).unwrap(),
        "V, vmess1, vmess1://uuid@h.example:8443/p?network=ws&ws.host=a%20b&tls=true&tls.servername=a%20b&tls.allowinsecure=false&sockopt.tcpfastopen=true"
    );
    v.transfer_protocol = Some("quic".to_string());
    v.quic_secure = Some("aes-128-gcm".to_string());
    v.quic_secret = Some("k".to_string());
    v.tls_secure = false;
    assert_eq!(
        mellow_proxy_line(&v, None, None).unwrap(),
        "V, vmess1, vmess1://uuid@h.example:8443/p?network=quic&quic.security=aes-128-gcm&quic.key=k&tls=false"
    );
    let mut k = node(ProxyType::Socks5);
    k.remark = "K".to_string();
    k.username = Some("u".to_string());
    assert_eq!(
        mellow_proxy_line(&k, None, None).unwrap(),
        "K, builtin, socks, address=h.example, port=8443, user=u, pass="
    );
    let t = node(ProxyType::Trojan);
    assert_eq!(mellow_proxy_line(&t, None, None), None);
}

#[test]
fn mellow_lines_for_groups() {
    let g = ProxyGroupConfig::new("G".to_string(), ProxyGroupType::URLTest);
    assert_eq!(
        mellow_group_line(&g, &vec!["a".to_string(), "b".to_string()], &vec![]).unwrap(),
        "G, a:b, latency, interval=300, timeout=6"
    );
    assert_eq!(
        mellow_group_line(&g, &vec![], &vec!["x".to_string()]).unwrap(),
        "G, x, latency, interval=300, timeout=6"
    );
    assert_eq!(
        mellow_group_line(&g, &vec![], &vec![]).unwrap(),
        "G, DIRECT, latency, interval=300, timeout=6"
    );
    let r = ProxyGroupConfig::new("R".to_string(), ProxyGroupType::Relay);
    assert_eq!(mellow_group_line(&r, &vec![], &vec![]), None);
}

#[test]
fn single_links_for_nodes() {
    let ss_ciphers = vec!["aes-128-gcm".to_string(), "rc4-md5".to_string()];
    let ssr_ciphers = vec!["rc4-md5".to_string(), "aes-256-cfb".to_string()];
    let mut s = node(ProxyType::Shadowsocks);
    s.remark = "R".to_string();
    s.group = "G".to_string();
    s.encrypt_method = Some("rc4-md5".to_string());
    s.password = Some("pw".to_string());
    assert_eq!(
        single_link(&s, only(true, false, false, false), &ss_ciphers, &ssr_ciphers).unwrap(),
        "ss://cmM0LW1kNTpwdw@h.example:8443#R"
    );
    assert_eq!(
        single_link(&s, only(false, true, false, false), &ss_ciphers, &ssr_ciphers).unwrap(),
        "ssr://aC5leGFtcGxlOjg0NDM6b3JpZ2luOnJjNC1tZDU6cGxhaW46Y0hjLz9ncm91cD1SdyZyZW1hcmtzPVVn"
    );
    s.plugin = Some("obfs-local".to_string());
    s.plugin_option = Some("obfs=http;obfs-host=a.com".to_string());
    assert_eq!(
        single_link(&s, only(true, false, false, false), &ss_ciphers, &ssr_ciphers).unwrap(),
        "ss://cmM0LW1kNTpwdw@h.example:8443/?plugin=obfs-local%3Bobfs%3Dhttp%3Bobfs-host%3Da.com#R"
    );
    assert_eq!(single_link(&s, only(false, true, false, false), &ss_ciphers, &ssr_ciphers), None);
    assert_eq!(single_link(&s, only(false, false, true, true), &ss_ciphers, &ssr_ciphers), None);

    let mut r = node(ProxyType::ShadowsocksR);
    r.remark = "R".to_string();
    r.group = "G".to_string();
    r.encrypt_method = Some("aes-256-cfb".to_string());
    r.password = Some("pw".to_string());
    r.protocol = Some("auth_aes128_md5".to_string());
    r.obfs = Some("tls1.2_ticket_auth".to_string());
    r.obfs_param = Some("o.com".to_string());
    assert_eq!(
        single_link(&r, only(false, true, false, false), &ss_ciphers, &ssr_ciphers).unwrap(),
        "ssr://aC5leGFtcGxlOjg0NDM6YXV0aF9hZXMxMjhfbWQ1OmFlcy0yNTYtY2ZiOnRsczEuMl90aWNrZXRfYXV0aDpjSGMvP2dyb3VwPVJ3JnJlbWFya3M9VWcmb2Jmc3BhcmFtPWJ5NWpiMjAmcHJvdG9wYXJhbT0"
    );
    assert_eq!(single_link(&r, only(true, false, false, false), &ss_ciphers, &ssr_ciphers), None);
    r.encrypt_method = Some("aes-128-gcm".to_string());
    r.protocol = Some("origin".to_string());
    r.obfs = Some("plain".to_string());
    assert_eq!(
        single_link(&r, only(true, false, false, false), &ss_ciphers, &ssr_ciphers).unwrap(),
        "ss://YWVzLTEyOC1nY206cHc@h.example:8443#R"
    );

    let mut t = node(ProxyType::Trojan);
    t.remark = "T 1".to_string();
    t.password = Some("p".to_string());
    t.host = Some("sni.com".to_string());
    t.transfer_protocol = Some("ws".to_string());
    t.path = Some("/a b".to_string());
    t.allow_insecure = Some(true);
    assert_eq!(
        single_link(&t, only(false, false, false, true), &ss_ciphers, &ssr_ciphers).unwrap(),
        "trojan://p@h.example:8443?allowInsecure=1&sni=sni.com&ws=1&wspath=%2Fa%20b#T%201"
    );
}

#[test]
fn vmess_links() {
    assert_eq!(
        vmess_link_construct("V \"q\"", "h.example", 8443, None, "uuid", 0, "ws", "/p", "cdn", "tls"),
        "{\"add\":\"h.example\",\"aid\":\"0\",\"host\":\"cdn\",\"id\":\"uuid\",\"net\":\"ws\",\"path\":\"/p\",\"port\":\"8443\",\"ps\":\"V \\\"q\\\"\",\"tls\":\"tls\",\"v\":\"2\"}"
    );
    assert_eq!(
        vmess_link_construct("a", "b", 1, Some("none"), "c", 2, "tcp", "", "", ""),
        "{\"add\":\"b\",\"aid\":\"2\",\"host\":\"\",\"id\":\"c\",\"net\":\"tcp\",\"path\":\"\",\"port\":\"1\",\"ps\":\"a\",\"tls\":\"\",\"type\":\"none\",\"v\":\"2\"}"
    );
    let mut v = node(ProxyType::VMess);
    v.remark = "V \"q\"".to_string();
    v.user_id = Some("uuid".to_string());
    v.transfer_protocol = Some("ws".to_string());
    v.path = Some("/p".to_string());
    v.host = Some("cdn".to_string());
    v.tls_secure = true;
    assert_eq!(
        single_link(&v, ProxyUriTypes::mixed(), &vec![], &vec![]).unwrap(),
        "vmess://eyJhZGQiOiJoLmV4YW1wbGUiLCJhaWQiOiIwIiwiaG9zdCI6ImNkbiIsImlkIjoidXVpZCIsIm5ldCI6IndzIiwicGF0aCI6Ii9wIiwicG9ydCI6Ijg0NDMiLCJwcyI6IlYgXCJxXCIiLCJ0bHMiOiJ0bHMiLCJ2IjoiMiJ9"
    );
}

#[test]
fn single_subscription() {
    let mut t = node(ProxyType::Trojan);
    t.remark = "T".to_string();
    t.password = Some("p".to_string());
    let w = node(ProxyType::WireGuard);
    let nodes = vec![t.clone(), w, t];
    let mut ext = ExtraSettings::from_settings(&Settings {
        enable_rule_gen: true,
        overwrite_original_rules: true,
        surge_ssr_path: String::new(),
        clash_proxies_style: String::new(),
        clash_proxy_groups_style: String::new(),
        ..Settings::default()
    });
    ext.nodelist = true;
    let links = proxy_to_single(&nodes, ProxyUriTypes::mixed(), &ext, &vec![], &vec![]);
    assert_eq!(
        links,
        "trojan://p@h.example:8443?allowInsecure=0#T\ntrojan://p@h.example:8443?allowInsecure=0#T\n"
    );
    let mut subscription = ext.clone();
    subscription.nodelist = false;
    assert_eq!(
        proxy_to_single(&nodes, ProxyUriTypes::mixed(), &subscription, &vec![], &vec![]),
        base64_encode(&links)
    );
    assert_eq!(proxy_to_single(&vec![], ProxyUriTypes::mixed(), &subscription, &vec![], &vec![]), "");
}

use subconverter::generator::config::formats::quan::{quan_group_line, quan_proxy_line};

#[test]
fn quan_lines_for_nodes() {
    let mut v = node(ProxyType::VMess);
    v.remark = "V".to_string();
    v.group = "G".to_string();
    v.encrypt_method = Some("auto".to_string());
    v.user_id = Some("uuid".to_string());
    v.tls_secure = true;
    v.host = Some("cdn".to_string());
    v.transfer_protocol = Some("ws".to_string());
    v.path = Some("/p".to_string());
    v.edge = Some("e".to_string());
    let line = "V = vmess, h.example, 8443, chacha20-ietf-poly1305, \"uuid\", group=G, over-tls=true, tls-host=cdn, certificate=0, obfs=ws, obfs-path=\"/p\", obfs-header=\"Host: cdn[Rr][Nn]Edge: e\"";
    assert_eq!(quan_proxy_line(&v, Some(true), false).unwrap(), line);
    assert_eq!(
        quan_proxy_line(&v, Some(true), true).unwrap(),
        format!("vmess://{}", url_safe_base64_encode(line))
    );
    let mut s = node(ProxyType::Shadowsocks);
    s.remark = "S".to_string();
    s.group = "G".to_string();
    s.encrypt_method = Some("aes-128-gcm".to_string());
    s.password = Some("pw".to_string());
    s.plugin = Some("obfs-local".to_string());
    s.plugin_option = Some("obfs=http;obfs-host=a.com".to_string());
    assert_eq!(
        quan_proxy_line(&s, None, false).unwrap(),
        "S = shadowsocks, h.example, 8443, aes-128-gcm, \"pw\", group=G, obfs=http, obfs-host=a.com"
    );
    assert_eq!(
        quan_proxy_line(&s, None, true).unwrap(),
        "ss://YWVzLTEyOC1nY206cHc@h.example:8443/?plugin=obfs-local%3Bobfs%3Dhttp%3Bobfs-host%3Da.com&group=Rw#S"
    );
    let mut h = node(ProxyType::HTTP);
    h.remark = "H".to_string();
    h.group = "G".to_string();
    let hl = "H = http, upstream-proxy-address=h.example, upstream-proxy-port=8443, group=G, upstream-proxy-auth=false";
    assert_eq!(quan_proxy_line(&h, None, false).unwrap(), hl);
    assert_eq!(
        quan_proxy_line(&h, None, true).unwrap(),
        format!("http://{}", url_safe_base64_encode(hl))
    );
    let mut k = node(ProxyType::Socks5);
    k.remark = "K".to_string();
    k.group = "G".to_string();
    k.username = Some("u".to_string());
    k.password = Some("p".to_string());
    k.tls_secure = true;
    k.host = Some("sni".to_string());
    assert_eq!(
        quan_proxy_line(&k, None, false).unwrap(),
        "K = socks, upstream-proxy-address=h.example, upstream-proxy-port=8443, group=G, upstream-proxy-auth=true, upstream-proxy-username=u, upstream-proxy-password=p, over-tls=true, tls-host=sni"
    );
    let mut r = node(ProxyType::ShadowsocksR);
    r.remark = "R".to_string();
    r.group = "G".to_string();
    r.encrypt_method = Some("aes-256-cfb".to_string());
    r.password = Some("pw".to_string());
    r.protocol = Some("auth_aes128_md5".to_string());
    r.obfs = Some("tls1.2_ticket_auth".to_string());
    r.obfs_param = Some("o.com".to_string());
    assert_eq!(
        quan_proxy_line(&r, None, false).unwrap(),
        "R = shadowsocksr, h.example, 8443, aes-256-cfb, \"pw\", group=G, protocol=auth_aes128_md5, obfs=tls1.2_ticket_auth, obfs_param=o.com"
    );
    assert_eq!(
        quan_proxy_line(&r, None, true).unwrap(),
        "ssr://aC5leGFtcGxlOjg0NDM6YXV0aF9hZXMxMjhfbWQ1OmFlcy0yNTYtY2ZiOnRsczEuMl90aWNrZXRfYXV0aDpjSGMvP2dyb3VwPVJ3JnJlbWFya3M9VWcmb2Jmc3BhcmFtPWJ5NWpiMjAmcHJvdG9wYXJhbT0"
    );
    let t = node(ProxyType::Trojan);
    assert_eq!(quan_proxy_line(&t, None, false), None);
}

#[test]
fn quan_policies() {
    let sel = ProxyGroupConfig::new("S".to_string(), ProxyGroupType::Select);
    assert_eq!(
        quan_group_line(&sel, &vec!["a".to_string(), "b".to_string()]).unwrap(),
        base64_encode("S : static, a\na\nb\n")
    );
    assert_eq!(quan_group_line(&sel, &vec![]).unwrap(), base64_encode("S : static, direct\ndirect\n"));
    let ut = ProxyGroupConfig::new("U".to_string(), ProxyGroupType::URLTest);
    assert_eq!(
        quan_group_line(&ut, &vec!["a".to_string(), "b".to_string()]).unwrap(),
        base64_encode("U : auto\na\nb\n")
    );
    assert_eq!(quan_group_line(&ut, &vec!["a".to_string()]).unwrap(), base64_encode("U : static, a\na\n"));
    let lb = ProxyGroupConfig::new("L".to_string(), ProxyGroupType::LoadBalance);
    assert_eq!(
        quan_group_line(&lb, &vec!["a".to_string(), "b".to_string()]).unwrap(),
        base64_encode("L : balance, round-robin\na\nb\n")
    );
    let mut ssid = ProxyGroupConfig::new("W".to_string(), ProxyGroupType::SSID);
    ssid.proxies = vec![
        "Proxy".to_string(),
        "HomeWifi=DIRECT,celluar=Cell,Other=Proxy".to_string(),
        "Cafe=Proxy".to_string(),
    ];
    assert_eq!(
        quan_group_line(&ssid, &vec![]).unwrap(),
        base64_encode("W : wifi = Proxy, celluar = Cell\nHomeWifi=DIRECT\nOther=Proxy\nCafe=Proxy\n")
    );
    ssid.proxies = vec![];
    assert_eq!(quan_group_line(&ssid, &vec![]), None);
    let relay = ProxyGroupConfig::new("R".to_string(), ProxyGroupType::Relay);
    assert_eq!(quan_group_line(&relay, &vec!["a".to_string()]), None);
}

use subconverter::generator::config::formats::ss_sub::sip008_servers;
use subconverter::generator::config::formats::ssd::{
    ssd_airport, ssd_expiry, ssd_expiry_secs, ssd_servers, ssd_userinfo_args,
};

#[test]
fn ssd_entries() {
    let mut s = node(ProxyType::Shadowsocks);
    s.remark = "S".to_string();
    s.encrypt_method = Some("aes-128-gcm".to_string());
    s.password = Some("pw".to_string());
    s.plugin = Some("obfs-local".to_string());
    s.plugin_option = Some("obfs=http".to_string());
    let mut r = node(ProxyType::ShadowsocksR);
    r.remark = "R".to_string();
    r.encrypt_method = Some("chacha20-ietf-poly1305".to_string());
    r.protocol = Some("origin".to_string());
    r.obfs = Some("plain".to_string());
    let mut r2 = r.clone();
    r2.obfs = Some("http_simple".to_string());
    let v = node(ProxyType::VMess);
    let servers = ssd_servers(&vec![v, s, r2, r]);
    assert_eq!(servers.len(), 2);
    assert_eq!(servers[0].remarks, "S");
    assert_eq!(servers[0].id, 0);
    assert_eq!(servers[0].plugin.as_deref(), Some("simple-obfs"));
    assert_eq!(servers[0].plugin_options.as_deref(), Some("obfs=http"));
    assert_eq!(servers[0].encryption.as_deref(), Some("aes-128-gcm"));
    assert_eq!(servers[1].remarks, "R");
    assert_eq!(servers[1].id, 1);
    assert_eq!(servers[1].plugin, None);
    assert_eq!(servers[1].port, 8443);
    assert_eq!(servers[1].server, "h.example");
}

#[test]
fn ssd_user_information() {
    assert_eq!(ssd_airport(""), "SSD");
    assert_eq!(ssd_airport("My"), "My");
    let (u, d, t, e) = ssd_userinfo_args("upload=1; download=2; total=3; expire=4");
    assert_eq!((u.as_str(), d.as_str(), t.as_str(), e.as_str()), ("1", "2", "3", "4"));
    assert_eq!(ssd_expiry_secs("123"), Some(123));
    assert_eq!(ssd_expiry_secs("+7"), Some(7));
    assert_eq!(ssd_expiry_secs("-0"), Some(0));
    assert_eq!(ssd_expiry_secs("-5"), None);
    assert_eq!(ssd_expiry_secs(""), None);
    assert_eq!(ssd_expiry_secs("1a"), None);
    assert_eq!(ssd_expiry_secs("9223372036854775807"), Some(9223372036854775807));
    assert_eq!(ssd_expiry_secs("9223372036854775808"), None);
    assert_eq!(ssd_expiry(0), "1970-01-01 00:00");
    assert_eq!(ssd_expiry(86400 * 400 + 3600 * 5 + 60 * 7), "1971-02-06 05:07");
}

#[test]
fn sip008_entries() {
    let ss_ciphers = vec!["aes-128-gcm".to_string()];
    let mut s = node(ProxyType::Shadowsocks);
    s.remark = "S".to_string();
    s.plugin = Some("simple-obfs".to_string());
    let mut r = node(ProxyType::ShadowsocksR);
    r.remark = "R".to_string();
    r.encrypt_method = Some("aes-128-gcm".to_string());
    r.protocol = Some("origin".to_string());
    r.obfs = Some("plain".to_string());
    let mut r2 = r.clone();
    r2.encrypt_method = Some("rc4".to_string());
    let servers = sip008_servers(&vec![s, r2, node(ProxyType::Trojan), r], &ss_ciphers);
    assert_eq!(servers.len(), 2);
    assert_eq!(servers[0].plugin, "obfs-local");
    assert_eq!(servers[0].method, "");
    assert_eq!(servers[1].remarks, "R");
    assert_eq!(servers[1].method, "aes-128-gcm");
    assert_eq!(servers[1].server_port, 8443);
}

#[test]
fn encodings_keep_their_alphabets() {
    for s in ["", "a", "ab", "abc", "ÿ?>ÿ?>", "subconverter ✓"] {
        let b = base64_encode(s);
        assert_eq!(b.len(), 4 * ((s.len() + 2) / 3));
        let u = url_safe_base64_encode(s);
        assert!(!u.contains('+') && !u.contains('/') && !u.contains('='));
        let e = url_encode(s);
        assert!(e.chars().all(|c| c.is_ascii_alphanumeric() || "-_.~%".contains(c)));
    }
}

#[test]
fn vmess_links_from_text_settings() {
    let l = subconverter::generator::config::vmess::vmess_link_construct(
        "N", "a.com", "443", "none", "uuid", "0", "ws", "/p", "h", "tls",
    );
    assert_eq!(
        l,
        "vmess://eyJhZGQiOiJhLmNvbSIsImFpZCI6IjAiLCJob3N0IjoiaCIsImlkIjoidXVpZCIsIm5ldCI6IndzIiwicGF0aCI6Ii9wIiwicG9ydCI6IjQ0MyIsInBzIjoiTiIsInRscyI6InRscyIsInR5cGUiOiJub25lIiwidiI6IjIifQ=="
    );
}

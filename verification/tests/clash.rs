use subconverter::generator::yaml::clash::clash_output::{ClashProxyCommon, ClashProxyOutput};
use subconverter::generator::yaml::clash::output_proxy_types::common_proxy_options::CommonProxyOptions;
use subconverter::generator::yaml::proxy_group_output::{
    convert_proxy_groups, example_clash_groups, is_false, is_true, is_zero_u32, ClashProxyGroup,
};
use subconverter::models::proxy::{Proxy, ProxyType};
use subconverter::models::proxy_group_config::{BalanceStrategy, ProxyGroupConfig, ProxyGroupType};

fn node(t: ProxyType) -> Proxy {
    let mut p = Proxy::default();
    p.proxy_type = t;
    p.remark = "N".to_string();
    p.hostname = "n.example".to_string();
    p.port = 443;
    p.udp = Some(true);
    p
}

#[test]
fn builder_sets_options() {
    let c = CommonProxyOptions::builder("a".to_string(), "b".to_string(), 1)
        .udp(Some(true))
        .tfo(Some(false))
        .sni(Some("s".to_string()))
        .routing_mark(Some(7))
        .build();
    assert_eq!(c.name, "a");
    assert_eq!(c.udp, Some(true));
    assert_eq!(c.tfo, Some(false));
    assert_eq!(c.sni.as_deref(), Some("s"));
    assert_eq!(c.routing_mark, Some(7));
    assert_eq!(c.tls, None);
    let n = CommonProxyOptions::new("a".to_string(), "b".to_string(), 2);
    assert_eq!(n.port, 2);
    assert_eq!(n.udp, None);
}

#[test]
fn new_variants_hold_common() {
    let c = CommonProxyOptions::new("x".to_string(), "y".to_string(), 9);
    let all = vec![
        ClashProxyOutput::new_shadowsocks(c.clone()),
        ClashProxyOutput::new_shadowsocksr(c.clone()),
        ClashProxyOutput::new_vmess(c.clone()),
        ClashProxyOutput::new_http(c.clone()),
        ClashProxyOutput::new_trojan(c.clone()),
        ClashProxyOutput::new_socks5(c.clone()),
        ClashProxyOutput::new_snell(c.clone()),
        ClashProxyOutput::new_wireguard(c.clone()),
        ClashProxyOutput::new_hysteria(c.clone()),
        ClashProxyOutput::new_hysteria2(c.clone()),
        ClashProxyOutput::new_vless(c.clone()),
        ClashProxyOutput::new_anytls(c.clone()),
    ];
    for o in all.iter() {
        assert_eq!(o.common().name, "x");
        assert_eq!(o.common().server, "y");
        assert_eq!(o.common().port, 9);
    }
    assert!(matches!(all[0], ClashProxyOutput::Shadowsocks(_)));
    assert!(matches!(all[11], ClashProxyOutput::AnyTls(_)));
}

#[test]
fn setters_change_only_their_option() {
    let c = CommonProxyOptions::new("x".to_string(), "y".to_string(), 9);
    let mut o = ClashProxyOutput::new_trojan(c);
    o.set_tfo(true);
    o.set_udp(false);
    o.set_skip_cert_verify(true);
    o.set_tls(true);
    o.set_sni("sni".to_string());
    o.set_fingerprint("fp".to_string());
    let k = o.common();
    assert_eq!(k.tfo, Some(true));
    assert_eq!(k.udp, Some(false));
    assert_eq!(k.skip_cert_verify, Some(true));
    assert_eq!(k.tls, Some(true));
    assert_eq!(k.sni.as_deref(), Some("sni"));
    assert_eq!(k.fingerprint.as_deref(), Some("fp"));
    assert_eq!(k.name, "x");
    match &o {
        ClashProxyOutput::Trojan(t) => assert_eq!(t.password, None),
        _ => panic!("kind changed"),
    }
    o.common_mut().port = 10;
    assert_eq!(o.common().port, 10);
}

#[test]
fn from_proxy_picks_kind() {
    let mut ss = node(ProxyType::Shadowsocks);
    ss.encrypt_method = Some("aes-128-gcm".to_string());
    ss.password = Some("pw".to_string());
    ss.plugin = Some("obfs".to_string());
    ss.plugin_option = Some("obfs=http;obfs-host=a.com".to_string());
    match ClashProxyOutput::from_proxy(ss) {
        ClashProxyOutput::Shadowsocks(p) => {
            assert_eq!(p.cipher.as_deref(), Some("aes-128-gcm"));
            assert_eq!(p.password.as_deref(), Some("pw"));
            assert_eq!(p.common.udp, Some(true));
            assert_eq!(
                p.plugin_opts,
                Some(vec![
                    ("obfs".to_string(), "http".to_string()),
                    ("obfs-host".to_string(), "a.com".to_string())
                ])
            );
        }
        _ => panic!("expected shadowsocks"),
    }
    match ClashProxyOutput::from_proxy(node(ProxyType::HTTPS)) {
        ClashProxyOutput::Http(p) => {
            assert_eq!(p.common.tls, Some(true));
            assert_eq!(p.common.udp, Some(true));
        }
        _ => panic!("expected http"),
    }
    match ClashProxyOutput::from_proxy(node(ProxyType::HTTP)) {
        ClashProxyOutput::Http(p) => assert_eq!(p.common.tls, Some(false)),
        _ => panic!("expected http"),
    }
    match ClashProxyOutput::from_proxy(node(ProxyType::Unknown)) {
        ClashProxyOutput::Http(p) => {
            assert_eq!(p.common.udp, None);
            assert_eq!(p.common.name, "N");
        }
        _ => panic!("expected a bare http proxy"),
    }
}

#[test]
fn from_proxy_snell_versions() {
    let mut s = node(ProxyType::Snell);
    s.password = Some("psk".to_string());
    s.snell_version = 4;
    match ClashProxyOutput::from_proxy(s.clone()) {
        ClashProxyOutput::Snell(p) => {
            assert_eq!(p.psk, None);
            assert_eq!(p.common.udp, None);
        }
        _ => panic!("expected snell"),
    }
    s.snell_version = 3;
    match ClashProxyOutput::from_proxy(s) {
        ClashProxyOutput::Snell(p) => {
            assert_eq!(p.psk.as_deref(), Some("psk"));
            assert_eq!(p.version, Some(3));
        }
        _ => panic!("expected snell"),
    }
}

#[test]
fn from_proxy_vmess_ws_and_trojan_grpc() {
    let mut v = node(ProxyType::VMess);
    v.user_id = Some("id".to_string());
    v.alter_id = 1;
    v.transfer_protocol = Some("ws".to_string());
    v.path = Some("/ws".to_string());
    v.host = Some("h.example".to_string());
    match ClashProxyOutput::from_proxy(v) {
        ClashProxyOutput::VMess(p) => {
            assert_eq!(p.uuid.as_deref(), Some("id"));
            assert_eq!(p.alter_id, 1);
            let ws = p.ws_opts.expect("ws options");
            assert_eq!(ws.path.as_deref(), Some("/ws"));
            assert_eq!(ws.headers, Some(vec![("Host".to_string(), "h.example".to_string())]));
            assert!(p.http_opts.is_none() && p.h2_opts.is_none() && p.grpc_opts.is_none());
        }
        _ => panic!("expected vmess"),
    }
    let mut t = node(ProxyType::Trojan);
    t.transfer_protocol = Some("grpc".to_string());
    t.path = Some("svc".to_string());
    match ClashProxyOutput::from_proxy(t) {
        ClashProxyOutput::Trojan(p) => {
            assert_eq!(p.grpc_opts.expect("grpc").service_name.as_deref(), Some("svc"));
            assert!(p.ws_opts.is_none());
        }
        _ => panic!("expected trojan"),
    }
}

#[test]
fn from_proxy_hysteria_bandwidth_and_wireguard_ips() {
    let mut h = node(ProxyType::Hysteria);
    h.up_speed = 100;
    h.down_speed = 0;
    match ClashProxyOutput::from_proxy(h) {
        ClashProxyOutput::Hysteria(p) => {
            assert_eq!(p.up.as_deref(), Some("100Mbps"));
            assert_eq!(p.up_speed, Some(100));
            assert_eq!(p.down, None);
            assert_eq!(p.down_speed, None);
            assert_eq!(p.alpn, None);
        }
        _ => panic!("expected hysteria"),
    }
    let mut w = node(ProxyType::WireGuard);
    w.allowed_ips = "0.0.0.0/0, ::/0".to_string();
    w.mtu = 1280;
    match ClashProxyOutput::from_proxy(w) {
        ClashProxyOutput::WireGuard(p) => {
            assert_eq!(p.allowed_ips, Some(vec!["0.0.0.0/0".to_string(), "::/0".to_string()]));
            assert_eq!(p.mtu, Some(1280));
            assert_eq!(p.dns, None);
        }
        _ => panic!("expected wireguard"),
    }
}

fn group(name: &str, t: ProxyGroupType) -> ProxyGroupConfig {
    ProxyGroupConfig::new(name.to_string(), t)
}

#[test]
fn group_from_config_by_kind() {
    let mut lb = group("LB", ProxyGroupType::LoadBalance);
    lb.strategy = BalanceStrategy::RoundRobin;
    lb.url = "http://t".to_string();
    lb.interval = 60;
    lb.tolerance = 5;
    lb.lazy = false;
    lb.proxies = vec!["a".to_string()];
    let g = ClashProxyGroup::from_config(&lb);
    assert_eq!(g.group_type, "load-balance");
    assert_eq!(g.strategy, "round-robin");
    assert_eq!(g.url, "http://t");
    assert_eq!(g.interval, 60);
    assert_eq!(g.tolerance, 5);
    assert!(!g.lazy);
    assert_eq!(g.proxies, vec!["a".to_string()]);

    let mut smart = group("S", ProxyGroupType::Smart);
    smart.url = "http://t".to_string();
    let g = ClashProxyGroup::from_config(&smart);
    assert_eq!(g.group_type, "url-test");
    assert!(!g.lazy);
    assert_eq!(g.proxies, vec!["DIRECT".to_string()]);

    let mut fb = group("F", ProxyGroupType::Fallback);
    fb.lazy = false;
    fb.url = "http://t".to_string();
    let g = ClashProxyGroup::from_config(&fb);
    assert!(g.lazy);
    assert_eq!(g.url, "http://t");
    assert_eq!(g.strategy, "");

    let mut sel = group("Sel", ProxyGroupType::Select);
    sel.url = "http://ignored".to_string();
    sel.interval = 9;
    sel.using_provider = vec!["prov".to_string()];
    let g = ClashProxyGroup::from_config(&sel);
    assert_eq!(g.url, "");
    assert_eq!(g.interval, 0);
    assert!(g.proxies.is_empty());
    assert_eq!(g.using_provider, vec!["prov".to_string()]);
    assert_eq!(g.timeout, 0);
}

#[test]
fn convert_groups_with_filtered_nodes() {
    let mut a = group("A", ProxyGroupType::Select);
    a.proxies = vec!["x".to_string()];
    let b = group("B", ProxyGroupType::Select);
    let c = group("C", ProxyGroupType::Relay);
    let map = vec![
        ("A".to_string(), vec!["n1".to_string(), "n2".to_string()]),
        ("B".to_string(), Vec::new()),
        ("A".to_string(), vec!["later".to_string()]),
    ];
    let out = convert_proxy_groups(&[a.clone(), b.clone(), c.clone()], Some(&map));
    assert_eq!(out.len(), 3);
    assert_eq!(out[0].proxies, vec!["n1".to_string(), "n2".to_string()]);
    assert_eq!(out[1].proxies, vec!["DIRECT".to_string()]);
    assert_eq!(out[2].proxies, vec!["DIRECT".to_string()]);
    let plain = convert_proxy_groups(&[a], None);
    assert_eq!(plain[0].proxies, vec!["x".to_string()]);
    assert!(convert_proxy_groups(&[], None).is_empty());
}

#[test]
fn converted_groups_never_empty() {
    let kinds = [
        ProxyGroupType::Select,
        ProxyGroupType::URLTest,
        ProxyGroupType::Fallback,
        ProxyGroupType::LoadBalance,
        ProxyGroupType::Relay,
        ProxyGroupType::SSID,
        ProxyGroupType::Smart,
    ];
    let configs: Vec<ProxyGroupConfig> = kinds.iter().map(|k| group("g", *k)).collect();
    for g in convert_proxy_groups(&configs, None).iter() {
        assert!(!g.proxies.is_empty() || !g.using_provider.is_empty());
    }
}

#[test]
fn example_groups() {
    let g = example_clash_groups();
    assert_eq!(g.len(), 3);
    assert_eq!(g[0].name, "Proxy");
    assert_eq!(g[0].group_type, "select");
    assert_eq!(g[0].proxies, vec!["Hong Kong", "Singapore", "US"]);
    assert_eq!((g[0].lazy, g[1].lazy, g[2].lazy), (true, false, true));
    assert_eq!(g[1].name, "Auto");
    assert_eq!(g[1].group_type, "url-test");
    assert_eq!(g[1].url, "http://www.gstatic.com/generate_204");
    assert_eq!(g[1].interval, 300);
    assert_eq!(g[2].name, "Fallback");
    assert_eq!(g[2].group_type, "fallback");
}

#[test]
fn skip_predicates() {
    assert!(is_zero_u32(&0));
    assert!(!is_zero_u32(&3));
    assert!(is_true(&true));
    assert!(!is_true(&false));
    assert!(is_false(&false));
    assert!(!is_false(&true));
}

use subconverter::generator::yaml::proxy_group_output::proxy_group_fields;
use subconverter::models::proxy_group_config::FieldValue;

fn keys(v: &[(String, FieldValue)]) -> Vec<String> {
    v.iter().map(|(k, _)| k.clone()).collect()
}

#[test]
fn group_fields_for_clash() {
    let mut g = group("Auto", ProxyGroupType::Smart);
    g.url = "http://t".to_string();
    g.interval = 300;
    g.disable_udp = true;
    let f = proxy_group_fields(&g, &[]);
    assert_eq!(keys(&f), vec!["name", "type", "lazy", "url", "interval", "disable-udp", "proxies"]);
    assert!(matches!(&f[1].1, FieldValue::Text(t) if t == "url-test"));
    assert!(matches!(&f[2].1, FieldValue::Flag(false)));
    assert!(matches!(&f[4].1, FieldValue::Number(300)));
    assert!(matches!(&f[6].1, FieldValue::List(l) if l == &vec!["DIRECT".to_string()]));
    let mut lb = group("LB", ProxyGroupType::LoadBalance);
    lb.lazy = true;
    lb.using_provider = vec!["p".to_string()];
    let f = proxy_group_fields(&lb, &["n".to_string()]);
    assert_eq!(keys(&f), vec!["name", "type", "strategy", "url", "use"]);
    let sel = group("S", ProxyGroupType::Select);
    let f = proxy_group_fields(&sel, &["a".to_string(), "b".to_string()]);
    assert_eq!(keys(&f), vec!["name", "type", "proxies"]);
}

#[test]
fn group_config_serialize_fields() {
    let mut g = group("F", ProxyGroupType::Fallback);
    g.url = "http://t".to_string();
    g.tolerance = 50;
    g.persistent = true;
    g.proxies = vec!["a".to_string()];
    g.using_provider = vec!["p".to_string()];
    let f = g.serialize_fields();
    assert_eq!(keys(&f), vec!["name", "type", "url", "tolerance", "persistent", "proxies", "use"]);
    let empty = group("E", ProxyGroupType::Relay).serialize_fields();
    assert_eq!(keys(&empty), vec!["name", "type"]);
}

#[test]
fn builder_last_call_wins() {
    let c = CommonProxyOptions::builder("n".to_string(), "s".to_string(), 8)
        .udp(Some(true))
        .sni(Some("a".to_string()))
        .tfo(Some(false))
        .udp(None)
        .sni(Some("b".to_string()))
        .routing_mark(Some(3))
        .build();
    assert_eq!((c.name.as_str(), c.server.as_str(), c.port), ("n", "s", 8));
    assert_eq!(c.udp, None);
    assert_eq!(c.tfo, Some(false));
    assert_eq!(c.sni.as_deref(), Some("b"));
    assert_eq!(c.routing_mark, Some(3));
    assert_eq!(c.tls, None);
    assert_eq!(c.dialer_proxy, None);
}

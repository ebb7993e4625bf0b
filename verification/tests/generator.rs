use subconverter::generator::config::formats::loon;
use subconverter::generator::config::formats::surge;
use subconverter::generator::config::subexport::match_range;
use subconverter::generator::ruleconvert::common::transform_rule_to_common;
use subconverter::generator::ruleconvert::convert_ruleset::convert_ruleset;
use subconverter::generator::ruleconvert::ruleset::RulesetType as Dialect;
use subconverter::generator::ruleconvert::ruleset_to_clash::{clash_rules_field, ruleset_to_clash};
use subconverter::models::proxy::{Proxy, ProxyType};
use subconverter::models::ruleset::{RulesetContent, RulesetType};

fn wireguard_node() -> Proxy {
    let mut p = Proxy::default();
    p.proxy_type = ProxyType::WireGuard;
    p.hostname = "wg.example.com".to_string();
    p.port = 51820;
    p
}

#[test]
fn match_range_forms() {
    assert!(match_range("", 5));
    assert!(match_range("443", 443));
    assert!(!match_range("443", 80));
    assert!(match_range("1-100", 50));
    assert!(match_range("1-100", 100));
    assert!(!match_range("1-100", 101));
    assert!(match_range("-5", -5));
    assert!(match_range(">100", 101));
    assert!(!match_range(">100", 100));
    assert!(match_range("<100", 99));
    assert!(!match_range("<100", 100));
    assert!(match_range(">=100", 100));
    assert!(match_range("<=100", 100));
    assert!(!match_range("<=100", 101));
    assert!(!match_range("abc", 1));
    assert!(!match_range(">-5", -10));
    assert!(match_range(">-5", -3));
    assert!(match_range("<=-5", -5));
    assert!(!match_range("<=-5", -4));
    assert!(match_range(">5-10", 7));
}

#[test]
fn transform_rule_to_common_forms() {
    assert_eq!(transform_rule_to_common("MATCH", "Proxy", false), "MATCH,Proxy");
    assert_eq!(
        transform_rule_to_common("DOMAIN,example.com", "Proxy", false),
        "DOMAIN,example.com,Proxy"
    );
    assert_eq!(
        transform_rule_to_common("IP-CIDR,1.0.0.0/8,no-resolve", "Direct", true),
        "IP-CIDR,1.0.0.0/8,Direct,no-resolve"
    );
    assert_eq!(
        transform_rule_to_common("IP-CIDR,1.0.0.0/8,other", "Direct", true),
        "IP-CIDR,1.0.0.0/8,Direct"
    );
    assert_eq!(
        transform_rule_to_common("IP-CIDR,1.0.0.0/8,other,x", "Direct", false),
        "IP-CIDR,1.0.0.0/8,Direct,other"
    );
}

#[test]
fn convert_ruleset_keeps_surge() {
    let text = "DOMAIN,example.com\nIP-CIDR,1.1.1.1/32";
    assert_eq!(convert_ruleset(text, RulesetType::Surge), text);
}

#[test]
fn convert_ruleset_clash_classical_lists_entries() {
    let text = "payload:\n  - 'DOMAIN,a.com'\n  - \"DOMAIN-SUFFIX,b.com\"\n  - IP-CIDR,1.1.1.1/32\n# note\n";
    assert_eq!(
        convert_ruleset(text, RulesetType::ClashClassical),
        "DOMAIN,a.com\nDOMAIN-SUFFIX,b.com\nIP-CIDR,1.1.1.1/32\n"
    );
}

#[test]
fn convert_ruleset_clash_domain_to_surge() {
    let text = "payload:\r\n  - '.google.com'\n  - '+.apple.com'\n  - 'example.org'\n  - '.ads.*'\n  - '# skip'\n  - ''\n";
    assert_eq!(
        convert_ruleset(text, RulesetType::ClashDomain),
        "DOMAIN-SUFFIX,google.com\nDOMAIN-SUFFIX,apple.com\nDOMAIN,example.org\nDOMAIN-KEYWORD,ads\n"
    );
}

#[test]
fn convert_ruleset_clash_ipcidr_to_surge() {
    let text = "payload:\n  - '10.0.0.0/8'\n  - '2001:db8::/32'\n  - '300.1.1.1/24' // bad\n";
    assert_eq!(
        convert_ruleset(text, RulesetType::ClashIpcidr),
        "IP-CIDR,10.0.0.0/8\nIP-CIDR6,2001:db8::/32\nIP-CIDR6,'300.1.1.1/24'\n"
    );
}

#[test]
fn dialect_names() {
    assert_eq!("SURGE".parse::<Dialect>(), Ok(Dialect::Surge));
    assert_eq!("quanx".parse::<Dialect>(), Ok(Dialect::Quanx));
    assert_eq!("Clash_Domain".parse::<Dialect>(), Ok(Dialect::ClashDomain));
    assert_eq!("clash_ipcidr".parse::<Dialect>(), Ok(Dialect::ClashIpcidr));
    assert_eq!("clash_classical".parse::<Dialect>(), Ok(Dialect::ClashClassical));
    assert_eq!(
        Dialect::parse_name("loon"),
        Err("Unknown ruleset type: loon".to_string())
    );
}

#[test]
fn ruleset_to_clash_keeps_base_rules() {
    let base = vec!["MATCH,DIRECT".to_string()];
    assert_eq!(ruleset_to_clash(&base, &[], false), vec!["MATCH,DIRECT".to_string()]);
    assert_eq!(ruleset_to_clash(&base, &[], true), Vec::<String>::new());
    assert_eq!(clash_rules_field(true), "rules");
    assert_eq!(clash_rules_field(false), "Rule");
}

#[test]
fn ruleset_to_clash_adds_ruleset_rules() {
    let base = vec!["DOMAIN,a.com,DIRECT".to_string()];
    let inline = ruleset("[]FINAL", "Proxy", RulesetType::Surge);
    let fetched = ruleset(
        "DOMAIN-SUFFIX,google.com\n# note\nUSER-AGENT,x\nIP-CIDR,1.1.1.0/24,no-resolve // dns\n",
        "Google",
        RulesetType::Surge,
    );
    let payload = ruleset("payload:\n  - '.example.org'\n", "Ex", RulesetType::ClashDomain);
    let empty = RulesetContent::new("none.list", "X");
    let rules = ruleset_to_clash(&base, &[inline, fetched, payload, empty], false);
    assert_eq!(
        rules,
        vec![
            "DOMAIN,a.com,DIRECT",
            "MATCH,Proxy",
            "DOMAIN-SUFFIX,google.com,Google",
            "IP-CIDR,1.1.1.0/24,Google,no-resolve",
            "DOMAIN-SUFFIX,example.org,Ex",
        ]
    );
}

#[test]
fn surge_peer_line() {
    let mut p = wireguard_node();
    assert_eq!(surge::generate_peer(&p, false), "endpoint = wg.example.com:51820");
    p.public_key = Some("KEY".to_string());
    p.allowed_ips = "0.0.0.0/0, ::/0".to_string();
    p.client_id = Some("1,2,3".to_string());
    assert_eq!(
        surge::generate_peer(&p, false),
        "public-key = KEY, endpoint = wg.example.com:51820, allowed-ips = 0.0.0.0/0, ::/0, client-id = 1,2,3"
    );
    assert_eq!(
        surge::generate_peer(&p, true),
        "public-key = KEY, endpoint = wg.example.com:51820, allowed-ips = 0.0.0.0/0, ::/0, reserved = 1,2,3"
    );
    p.client_id = Some(String::new());
    assert!(!surge::generate_peer(&p, true).contains("reserved"));
}

#[test]
fn loon_peer_line() {
    let mut p = wireguard_node();
    assert_eq!(loon::generate_peer(&p, false), ", endpoint=wg.example.com:51820");
    p.public_key = Some("KEY".to_string());
    p.allowed_ips = "0.0.0.0/0".to_string();
    p.client_id = Some("7".to_string());
    assert_eq!(
        loon::generate_peer(&p, true),
        "public-key=KEY, endpoint=wg.example.com:51820, allowed-ips=0.0.0.0/0, reserved=7"
    );
    assert_eq!(
        loon::generate_peer(&p, false),
        "public-key=KEY, endpoint=wg.example.com:51820, allowed-ips=0.0.0.0/0, client-id=7"
    );
}

use subconverter::generator::ruleconvert::ruleset_to_sing_box::{sing_box_route_rules, SingBoxValue};

fn text(v: &SingBoxValue) -> String {
    match v {
        SingBoxValue::Text(s) => s.clone(),
        SingBoxValue::List(_) => panic!("expected text"),
    }
}

fn list(v: &SingBoxValue) -> Vec<String> {
    match v {
        SingBoxValue::List(l) => l.clone(),
        SingBoxValue::Text(_) => panic!("expected list"),
    }
}

fn ruleset(content: &str, group: &str, t: RulesetType) -> RulesetContent {
    let mut r = RulesetContent::new("rules.list", group);
    r.rule_type = t;
    r.set_rule_content(content);
    r
}

#[test]
fn sing_box_rules_from_rulesets() {
    let rs = vec![
        ruleset("[]DOMAIN-SUFFIX,Google.com", "Proxy", RulesetType::Surge),
        ruleset("DOMAIN,a.com\n# c\nIP-CIDR,1.1.1.1/32,no-resolve\nDOMAIN,b.com // x\nUSER-AGENT,x\n", "Direct", RulesetType::Surge),
        ruleset("", "Empty", RulesetType::Surge),
        ruleset("[]FINAL", "Final", RulesetType::Surge),
        ruleset("payload:\n  - '.c.com'\n", "C", RulesetType::ClashDomain),
    ];
    let route = sing_box_route_rules(&rs, 0, true);
    assert_eq!(route.final_outbound, "Final");
    assert_eq!(route.rules.len(), 6);
    assert_eq!(text(&route.rules[0][0].1), "Global");
    assert_eq!(route.rules[2][0].0, "protocol");
    let inline = &route.rules[3];
    assert_eq!(inline[0].0, "domain_suffix");
    assert_eq!(text(&inline[0].1), "google.com");
    assert_eq!(inline[1].0, "outbound");
    assert_eq!(text(&inline[1].1), "Proxy");
    let direct = &route.rules[4];
    assert_eq!(direct[0].0, "domain");
    assert_eq!(list(&direct[0].1), vec!["a.com".to_string(), "b.com".to_string()]);
    assert_eq!(direct[1].0, "ip_cidr");
    assert_eq!(list(&direct[1].1), vec!["1.1.1.1/32".to_string()]);
    assert_eq!(direct[2].0, "outbound");
    assert_eq!(text(&direct[2].1), "Direct");
    assert_eq!(direct.len(), 3);
    let clash = &route.rules[5];
    assert_eq!(clash[0].0, "domain_suffix");
    assert_eq!(list(&clash[0].1), vec!["c.com".to_string()]);
}

#[test]
fn sing_box_rules_respect_limit() {
    let rs = vec![
        ruleset("DOMAIN,a.com\nDOMAIN,b.com\nDOMAIN,c.com", "A", RulesetType::Surge),
        ruleset("[]MATCH,x", "M", RulesetType::Surge),
        ruleset("[]GEOIP,CN", "B", RulesetType::Surge),
    ];
    let route = sing_box_route_rules(&rs, 2, false);
    assert_eq!(route.rules.len(), 2);
    assert_eq!(list(&route.rules[1][0].1), vec!["a.com".to_string(), "b.com".to_string()]);
    assert_eq!(route.final_outbound, "");
    let all = sing_box_route_rules(&rs, 0, false);
    assert_eq!(all.rules.len(), 3);
    assert_eq!(all.final_outbound, "M");
    assert_eq!(all.rules[2][0].0, "geoip");
    assert_eq!(text(&all.rules[2][0].1), "cn");
}

use subconverter::generator::ruleconvert::ruleset_to_surge::{surge_inline_rule, surge_ruleset_lines};

#[test]
fn surge_inline_rules() {
    assert_eq!(surge_inline_rule("[]MATCH", "Proxy", 4), "FINAL,Proxy");
    assert_eq!(surge_inline_rule("[]GEOIP,CN", "Direct", 3), "GEOIP,CN,Direct");
    assert_eq!(surge_inline_rule("[]GEOIP,CN,no-resolve", "D", -1), "GEOIP,CN,D,no-resolve");
    assert_eq!(surge_inline_rule("[]GEOIP,CN,other", "D", -2), "GEOIP,CN,D");
    assert_eq!(surge_inline_rule("[]FINAL,,x", "G", 4), "FINAL,G,x");
    assert_eq!(surge_inline_rule("[]AND,((DOMAIN,a))", "G", 4), "AND,((DOMAIN,a))");
}

#[test]
fn surge_lines_per_client() {
    let text = "DOMAIN,a.com\nIP-CIDR6,::1/128,no-resolve\nUSER-AGENT,x\n# c\nPROCESS-NAME,p // note\n";
    assert_eq!(
        surge_ruleset_lines(text, RulesetType::Surge, "G", -1, None),
        vec!["DOMAIN,a.com,G", "IP6-CIDR,::1/128,G,no-resolve", "USER-AGENT,x,G"]
    );
    assert_eq!(
        surge_ruleset_lines(text, RulesetType::Surge, "G", -2, None),
        vec!["DOMAIN,a.com,G", "USER-AGENT,x,G"]
    );
    assert_eq!(
        surge_ruleset_lines(text, RulesetType::Surge, "G", 4, None),
        vec![
            "DOMAIN,a.com,G",
            "IP-CIDR6,::1/128,G,no-resolve",
            "USER-AGENT,x,G",
            "PROCESS-NAME,p,G"
        ]
    );
    assert_eq!(
        surge_ruleset_lines(text, RulesetType::Surge, "G", 4, Some(2)),
        vec!["DOMAIN,a.com,G", "IP-CIDR6,::1/128,G,no-resolve"]
    );
    assert_eq!(
        surge_ruleset_lines("payload:\n  - '+.b.com'\n", RulesetType::ClashDomain, "B", 4, None),
        vec!["DOMAIN-SUFFIX,b.com,B"]
    );
}

use subconverter::generator::config::formats::surge::{surge_proxy_line, SurgeProxyLine};

fn line(l: SurgeProxyLine) -> String {
    match l {
        SurgeProxyLine::Line(s) => s,
        other => panic!("expected a line, got {:?}", other),
    }
}

fn surge_node(t: ProxyType) -> Proxy {
    let mut p = Proxy::default();
    p.proxy_type = t;
    p.hostname = "h.example".to_string();
    p.port = 8443;
    p
}

#[test]
fn surge_lines_for_shadowsocks() {
    let mut p = surge_node(ProxyType::Shadowsocks);
    p.encrypt_method = Some("aes-128-gcm".to_string());
    p.password = Some("pw".to_string());
    assert_eq!(
        line(surge_proxy_line(&p, None, None, None, None, 4, "")),
        "ss, h.example, 8443, encrypt-method=aes-128-gcm, password=pw"
    );
    assert_eq!(
        line(surge_proxy_line(&p, None, None, None, None, 2, "")),
        "custom, h.example, 8443, aes-128-gcm, pw, https://github.com/pobizhe/SSEncrypt/raw/master/SSEncrypt.module"
    );
    p.plugin = Some("simple-obfs".to_string());
    p.plugin_option = Some("obfs=http;obfs-host=a.com".to_string());
    p.udp = Some(true);
    assert_eq!(
        line(surge_proxy_line(&p, Some(false), Some(false), None, None, 4, "")),
        "ss, h.example, 8443, encrypt-method=aes-128-gcm, password=pw,obfs=http,obfs-host=a.com, tfo=false, udp-relay=true"
    );
    p.plugin = Some("v2ray-plugin".to_string());
    assert!(matches!(surge_proxy_line(&p, None, None, None, None, 4, ""), SurgeProxyLine::Skip));
}

#[test]
fn surge_lines_for_vmess() {
    let mut p = surge_node(ProxyType::VMess);
    p.user_id = Some("id".to_string());
    p.transfer_protocol = Some("ws".to_string());
    p.path = Some("/ws".to_string());
    p.host = Some("cdn.example".to_string());
    p.tls_secure = true;
    p.tls13 = Some(true);
    p.allow_insecure = Some(false);
    assert_eq!(
        line(surge_proxy_line(&p, None, None, None, None, 4, "")),
        "vmess, h.example, 8443, username=id, tls=true, vmess-aead=true, tls13=true, ws=true, ws-path=/ws, sni=cdn.example, ws-headers=Host:cdn.example, skip-cert-verify=false"
    );
    assert!(matches!(surge_proxy_line(&p, None, None, None, None, 3, ""), SurgeProxyLine::Skip));
    p.transfer_protocol = Some("grpc".to_string());
    assert!(matches!(surge_proxy_line(&p, None, None, None, None, 4, ""), SurgeProxyLine::Skip));
}

#[test]
fn surge_lines_for_other_kinds() {
    let mut s = surge_node(ProxyType::Socks5);
    s.username = Some("u".to_string());
    s.underlying_proxy = Some("chain".to_string());
    assert_eq!(
        line(surge_proxy_line(&s, None, None, Some(true), None, 4, "")),
        "socks5, h.example, 8443, username=u, skip-cert-verify=true, underlying-proxy=chain"
    );
    let mut h = surge_node(ProxyType::HTTPS);
    h.tls_secure = true;
    assert_eq!(line(surge_proxy_line(&h, None, None, None, None, 4, "")), "http, h.example, 8443, tls=true");
    h.username = Some("u".to_string());
    h.password = Some("p".to_string());
    assert_eq!(line(surge_proxy_line(&h, None, None, None, None, -3, "")), "https, h.example, 8443, u, p");
    assert_eq!(
        line(surge_proxy_line(&h, None, None, Some(false), None, -3, "")),
        "https, h.example, 8443, u, p, skip-cert-verify=false"
    );
    let mut t = surge_node(ProxyType::Trojan);
    t.password = Some("pw".to_string());
    t.host = Some("sni.example".to_string());
    assert_eq!(
        line(surge_proxy_line(&t, None, None, None, None, 4, "")),
        "trojan, h.example, 8443, password=pw, sni=sni.example"
    );
    let mut n = surge_node(ProxyType::Snell);
    n.password = Some("psk".to_string());
    n.obfs = Some("http".to_string());
    n.snell_version = 3;
    assert_eq!(
        line(surge_proxy_line(&n, None, None, None, None, 4, "")),
        "snell, h.example, 8443, psk=psk, obfs=http, version=3"
    );
    let mut y = surge_node(ProxyType::Hysteria2);
    y.password = Some("pw".to_string());
    y.down_speed = 100;
    y.sni = Some("s".to_string());
    assert_eq!(
        line(surge_proxy_line(&y, None, None, None, None, 5, "")),
        "hysteria, h.example, 8443, password=pw, download-bandwidth=100,sni=s"
    );
    assert!(matches!(surge_proxy_line(&y, None, None, None, None, 3, ""), SurgeProxyLine::Skip));
    let w = surge_node(ProxyType::WireGuard);
    assert!(matches!(surge_proxy_line(&w, None, None, None, None, 4, ""), SurgeProxyLine::Elsewhere));
    let r = surge_node(ProxyType::ShadowsocksR);
    assert!(matches!(surge_proxy_line(&r, None, None, None, None, 4, ""), SurgeProxyLine::Skip));
    assert!(matches!(surge_proxy_line(&r, None, None, None, None, 4, "/bin/ssr"), SurgeProxyLine::Elsewhere));
    let v = surge_node(ProxyType::Vless);
    assert!(matches!(surge_proxy_line(&v, None, None, None, None, 4, ""), SurgeProxyLine::Skip));
}

use subconverter::generator::config::formats::loon::{loon_group_line, loon_node_list, loon_proxy_line};
use subconverter::models::proxy_group_config::{BalanceStrategy, ProxyGroupConfig, ProxyGroupType};

#[test]
fn loon_lines_for_nodes() {
    let mut ss = surge_node(ProxyType::Shadowsocks);
    ss.encrypt_method = Some("aes-128-gcm".to_string());
    ss.password = Some("pw".to_string());
    ss.plugin = Some("obfs-local".to_string());
    ss.plugin_option = Some("obfs=http;obfs-host=a.com".to_string());
    assert_eq!(
        loon_proxy_line(&ss, Some(true), Some(true), None).unwrap(),
        "Shadowsocks,h.example,8443,aes-128-gcm,\"pw\",http,a.com,fast-open=true,udp=true"
    );
    ss.plugin = Some("v2ray-plugin".to_string());
    assert_eq!(loon_proxy_line(&ss, None, None, None), None);
    let mut vm = surge_node(ProxyType::VMess);
    vm.encrypt_method = Some("auto".to_string());
    vm.user_id = Some("id".to_string());
    vm.transfer_protocol = Some("ws".to_string());
    vm.path = Some("/p".to_string());
    vm.host = Some("cdn".to_string());
    vm.tls_secure = true;
    assert_eq!(
        loon_proxy_line(&vm, None, None, Some(true)).unwrap(),
        "vmess,h.example,8443,chacha20-ietf-poly1305,\"id\",over-tls=true,tls-name=cdn,transport=ws,path=/p,host=cdn,skip-cert-verify=true"
    );
    let mut http = surge_node(ProxyType::HTTP);
    http.password = Some("p".to_string());
    assert_eq!(loon_proxy_line(&http, None, Some(false), None).unwrap(), "http,h.example,8443");
    http.username = Some("u".to_string());
    assert_eq!(loon_proxy_line(&http, None, None, None).unwrap(), "http,h.example,8443,u,\"p\"");
    let mut wg = surge_node(ProxyType::WireGuard);
    wg.self_ip = Some("10.0.0.2".to_string());
    wg.private_key = Some("k".to_string());
    wg.dns_servers = vec!["1.1.1.1".to_string(), "2606:4700::1111".to_string(), "x".to_string()];
    wg.mtu = 1280;
    assert_eq!(
        loon_proxy_line(&wg, None, None, None).unwrap(),
        "wireguard, interface-ip=10.0.0.2, private-key=k, dns=1.1.1.1, dnsv6=2606:4700::1111, mtu=1280, peers=[{, endpoint=h.example:8443}]"
    );
    assert_eq!(loon_proxy_line(&surge_node(ProxyType::Snell), None, None, None), None);
}

#[test]
fn loon_lines_for_groups() {
    let mut lb = ProxyGroupConfig::new("LB".to_string(), ProxyGroupType::LoadBalance);
    lb.url = "http://t".to_string();
    lb.interval = 60;
    lb.strategy = BalanceStrategy::RoundRobin;
    lb.timeout = 5;
    assert_eq!(
        loon_group_line(&lb, &["a".to_string(), "b".to_string()]).unwrap(),
        "LB = load-balance,a,b,url=http://t,interval=60,algorithm=round-robin,max-timeout=5"
    );
    let sel = ProxyGroupConfig::new("S".to_string(), ProxyGroupType::Select);
    assert_eq!(loon_group_line(&sel, &[]).unwrap(), "S = select,DIRECT");
    let mut fb = ProxyGroupConfig::new("F".to_string(), ProxyGroupType::Fallback);
    fb.url = "u".to_string();
    assert_eq!(loon_group_line(&fb, &["x".to_string()]).unwrap(), "F = fallback,x,url=u,interval=0,max-timeout=0");
    let mut ssid = ProxyGroupConfig::new("W".to_string(), ProxyGroupType::SSID);
    ssid.proxies = vec!["a".to_string(), "b".to_string(), "c".to_string()];
    assert_eq!(loon_group_line(&ssid, &[]).unwrap(), "W = ssid,default=a,b,c");
    ssid.proxies = vec!["a".to_string()];
    assert_eq!(loon_group_line(&ssid, &[]), None);
    let relay = ProxyGroupConfig::new("R".to_string(), ProxyGroupType::Relay);
    assert_eq!(loon_group_line(&relay, &["x".to_string()]), None);
}

use subconverter::generator::config::formats::surge::{surge_group_line, SurgeGroupLine};

#[test]
fn surge_lines_for_groups() {
    let mut ut = ProxyGroupConfig::new("Auto".to_string(), ProxyGroupType::URLTest);
    ut.url = "http://t".to_string();
    ut.interval = 300;
    ut.tolerance = 50;
    ut.persistent = true;
    match surge_group_line(&ut, &["a".to_string(), "b".to_string()], 4) {
        SurgeGroupLine::Group(s) => {
            assert_eq!(s, "Auto = url-test,a,b,url=http://t,interval=300,tolerance=50,persistent=true")
        }
        other => panic!("unexpected {:?}", other),
    }
    let sel = ProxyGroupConfig::new("S".to_string(), ProxyGroupType::Select);
    match surge_group_line(&sel, &[], 4) {
        SurgeGroupLine::Proxy(s) => assert_eq!(s, "S = direct"),
        other => panic!("unexpected {:?}", other),
    }
    match surge_group_line(&sel, &["REJECT".to_string()], 4) {
        SurgeGroupLine::Proxy(s) => assert_eq!(s, "S = reject"),
        other => panic!("unexpected {:?}", other),
    }
    match surge_group_line(&sel, &["x".to_string()], 4) {
        SurgeGroupLine::Group(s) => assert_eq!(s, "S = select,x"),
        other => panic!("unexpected {:?}", other),
    }
    let lb = ProxyGroupConfig::new("L".to_string(), ProxyGroupType::LoadBalance);
    assert!(matches!(surge_group_line(&lb, &["x".to_string()], 0), SurgeGroupLine::Skip));
    assert!(matches!(surge_group_line(&lb, &["x".to_string()], -3), SurgeGroupLine::Group(_)));
    let mut ssid = ProxyGroupConfig::new("W".to_string(), ProxyGroupType::SSID);
    ssid.proxies = vec!["a".to_string()];
    match surge_group_line(&ssid, &[], 4) {
        SurgeGroupLine::Group(s) => assert_eq!(s, "W = ssid,default=a,"),
        other => panic!("unexpected {:?}", other),
    }
    let relay = ProxyGroupConfig::new("R".to_string(), ProxyGroupType::Relay);
    assert!(matches!(surge_group_line(&relay, &["x".to_string()], 4), SurgeGroupLine::Skip));
}

use subconverter::generator::config::formats::quanx::{quanx_group_line, quanx_proxy_line};
use subconverter::utils::url::get_url_arg;

#[test]
fn url_arguments() {
    assert_eq!(get_url_arg("mode=websocket&host=a.com&path=/p", "host"), "a.com");
    assert_eq!(get_url_arg("mode=websocket&host=a.com&path=/p", "path"), "/p");
    assert_eq!(get_url_arg("mode=websocket&host=a.com", "mode"), "websocket");
    assert_eq!(get_url_arg("x?host=1&host=2", "host"), "2");
    assert_eq!(get_url_arg("ghost=1", "host"), "");
    assert_eq!(get_url_arg("a=1", "b"), "");
    assert_eq!(get_url_arg("", "b"), "");
    assert_eq!(get_url_arg("?upload=12&download=3", "upload"), "12");
}

#[test]
fn quanx_lines_for_nodes() {
    let mut v = surge_node(ProxyType::VMess);
    v.encrypt_method = Some("auto".to_string());
    v.user_id = Some("id".to_string());
    v.alter_id = 1;
    v.transfer_protocol = Some("ws".to_string());
    v.host = Some("cdn".to_string());
    v.path = Some("/ws".to_string());
    v.tls_secure = true;
    v.remark = "V".to_string();
    assert_eq!(
        quanx_proxy_line(&v, Some(true), None, Some(true), Some(false)).unwrap(),
        "vmess = h.example:8443, method=chacha20-ietf-poly1305, password=id, aead=false, tls13=false, obfs=wss, obfs-host=cdn, obfs-uri=/ws, udp-relay=true, tls-verification=false, tag=V"
    );
    let mut s = surge_node(ProxyType::Shadowsocks);
    s.encrypt_method = Some("aes-128-gcm".to_string());
    s.password = Some("pw".to_string());
    s.remark = "S".to_string();
    assert_eq!(
        quanx_proxy_line(&s, None, Some(false), Some(true), None).unwrap(),
        "shadowsocks = h.example:8443, method=aes-128-gcm, password=pw, fast-open=false, tag=S"
    );
    s.plugin = Some("obfs-local".to_string());
    s.plugin_option = Some("obfs=http;obfs-host=b.com".to_string());
    assert_eq!(
        quanx_proxy_line(&s, None, None, None, None).unwrap(),
        "shadowsocks = h.example:8443, method=aes-128-gcm, password=pw, obfs=http, obfs-host=b.com, tag=S"
    );
    s.plugin = Some("v2ray-plugin".to_string());
    s.plugin_option = Some("mode=websocket;tls;host=c.com;path=/x".to_string());
    assert_eq!(
        quanx_proxy_line(&s, None, None, None, Some(true)).unwrap(),
        "shadowsocks = h.example:8443, method=aes-128-gcm, password=pw, tls13=true, obfs=wss, obfs-host=c.com, obfs-uri=/x, tag=S"
    );
    s.plugin = Some("kcptun".to_string());
    assert_eq!(quanx_proxy_line(&s, None, None, None, None), None);
    let mut h = surge_node(ProxyType::HTTP);
    h.remark = "H".to_string();
    assert_eq!(
        quanx_proxy_line(&h, None, None, None, None).unwrap(),
        "http = h.example:8443, username=none, password=none, over-tls=false, tag=H"
    );
    let mut t = surge_node(ProxyType::Trojan);
    t.password = Some("p".to_string());
    t.host = Some("sni.com".to_string());
    t.tls_secure = true;
    t.remark = "T".to_string();
    assert_eq!(
        quanx_proxy_line(&t, None, None, None, None).unwrap(),
        "trojan = h.example:8443, password=p, over-tls=true, tls-host=sni.com, tag=T"
    );
    let mut k = surge_node(ProxyType::Socks5);
    k.remark = "K".to_string();
    assert_eq!(quanx_proxy_line(&k, None, None, None, None).unwrap(), "socks5 = h.example:8443, tag=K");
    let mut r = surge_node(ProxyType::ShadowsocksR);
    r.encrypt_method = Some("rc4".to_string());
    r.password = Some("p".to_string());
    r.protocol = Some("origin".to_string());
    r.obfs = Some("plain".to_string());
    r.remark = "R".to_string();
    assert_eq!(
        quanx_proxy_line(&r, None, None, Some(false), None).unwrap(),
        "shadowsocks = h.example:8443, method=rc4, password=p, ssr-protocol=origin, obfs=plain, tag=R"
    );
    let w = surge_node(ProxyType::WireGuard);
    assert_eq!(quanx_proxy_line(&w, None, None, None, None), None);
}

#[test]
fn quanx_lines_for_groups() {
    let mut ut = ProxyGroupConfig::new("Auto".to_string(), ProxyGroupType::URLTest);
    ut.interval = 300;
    ut.tolerance = 50;
    let base_policies = vec![(
        "url-latency-benchmark".to_string(),
        "Auto, a, b, img-url=https://i/x.png".to_string(),
    )];
    assert_eq!(
        quanx_group_line(&ut, &vec!["a".to_string(), "b".to_string()], &base_policies).unwrap(),
        "url-latency-benchmark=Auto, a, b, img-url=https://i/x.png, check-interval=300, tolerance=50"
    );
    assert_eq!(
        quanx_group_line(&ut, &vec!["a".to_string()], &[]).unwrap(),
        "static=Auto, a, check-interval=300, tolerance=50"
    );
    let sel = ProxyGroupConfig::new("S".to_string(), ProxyGroupType::Select);
    assert_eq!(quanx_group_line(&sel, &vec![], &[]).unwrap(), "static=S, direct");
    let mut ssid = ProxyGroupConfig::new("W".to_string(), ProxyGroupType::SSID);
    ssid.proxies = vec!["default=a".to_string(), "home=b".to_string()];
    assert_eq!(quanx_group_line(&ssid, &vec![], &[]).unwrap(), "ssid=W, default:a, home:b");
    let relay = ProxyGroupConfig::new("R".to_string(), ProxyGroupType::Relay);
    assert_eq!(quanx_group_line(&relay, &vec!["x".to_string()], &[]), None);
}

#[test]
fn quanx_lines_end_with_tag() {
    for t in [ProxyType::VMess, ProxyType::Shadowsocks, ProxyType::HTTP, ProxyType::Trojan, ProxyType::Socks5] {
        let mut p = surge_node(t);
        p.remark = "Node A".to_string();
        p.tls_secure = true;
        let l = quanx_proxy_line(&p, Some(true), Some(true), Some(false), Some(true)).unwrap();
        assert!(l.ends_with(", tag=Node A"));
    }
    assert!(!get_url_arg("a=1&b=2&c=3", "b").contains('&'));
}

use subconverter::generator::ruleconvert::ruleset_to_surge::{remote_rule, surge_rules, RemoteRule};

fn ruleset_at(path: &str, group: &str, t: RulesetType, content: &str) -> RulesetContent {
    let mut r = RulesetContent::new(path, group);
    r.rule_type = t;
    if !content.is_empty() {
        r.set_rule_content(content);
    }
    r
}

#[test]
fn remote_rules_per_client() {
    let mut local = ruleset_at("rules/local.list", "Proxy", RulesetType::Surge, "");
    local.update_interval = 86400;
    match remote_rule(&local, 4, "http://me", true) {
        RemoteRule::Rule(l) => assert_eq!(
            l,
            "RULE-SET,http://me/getruleset?type=1&url=cnVsZXMvbG9jYWwubGlzdA,Proxy,update-interval=86400"
        ),
        other => panic!("unexpected {:?}", other),
    }
    match remote_rule(&local, -1, "http://me", true) {
        RemoteRule::FilterRemote(l) => assert_eq!(
            l,
            "http://me/getruleset?type=2&url=cnVsZXMvbG9jYWwubGlzdA&group=UHJveHk, tag=Proxy, enabled=true"
        ),
        other => panic!("unexpected {:?}", other),
    }
    match remote_rule(&local, -4, "http://me", true) {
        RemoteRule::RemoteRule(l) => {
            assert_eq!(l, "http://me/getruleset?type=1&url=cnVsZXMvbG9jYWwubGlzdA,Proxy")
        }
        other => panic!("unexpected {:?}", other),
    }
    assert!(matches!(remote_rule(&local, 4, "", true), RemoteRule::Content));
    assert!(matches!(remote_rule(&local, 4, "", false), RemoteRule::Skip));
    let link = ruleset_at("https://x/r.list", "Proxy", RulesetType::Surge, "");
    match remote_rule(&link, 4, "", false) {
        RemoteRule::Rule(l) => assert_eq!(l, "RULE-SET,https://x/r.list,Proxy"),
        other => panic!("unexpected {:?}", other),
    }
    let clash_link = ruleset_at("https://x/r.list", "Proxy", RulesetType::ClashDomain, "");
    assert!(matches!(remote_rule(&clash_link, 4, "", false), RemoteRule::Skip));
    match remote_rule(&link, -4, "", false) {
        RemoteRule::RemoteRule(l) => assert_eq!(l, "https://x/r.list,Proxy"),
        other => panic!("unexpected {:?}", other),
    }
    assert!(matches!(remote_rule(&link, 0, "", false), RemoteRule::Content));
    let quanx_link = ruleset_at("https://x/r.list", "Proxy", RulesetType::Quanx, "");
    match remote_rule(&quanx_link, -1, "", false) {
        RemoteRule::FilterRemote(l) => {
            assert_eq!(l, "https://x/r.list, tag=Proxy, force-policy=Proxy, enabled=true")
        }
        other => panic!("unexpected {:?}", other),
    }
}

#[test]
fn rules_of_a_configuration() {
    let rulesets = vec![
        ruleset_at("", "Direct", RulesetType::Surge, "[]GEOIP,CN"),
        ruleset_at("rules/a.list", "A", RulesetType::Surge, "DOMAIN,a.com\nDOMAIN,b.com\n"),
        ruleset_at("https://x/r.list", "Proxy", RulesetType::Surge, ""),
        ruleset_at("", "Final", RulesetType::Surge, "[]MATCH"),
    ];
    let exists = vec![false, true, false, false];
    let all = surge_rules(&rulesets, 0, "", 0, &exists);
    assert_eq!(
        all.rules,
        vec!["GEOIP,CN,Direct", "DOMAIN,a.com,A", "DOMAIN,b.com,A", "FINAL,Final"]
    );
    assert!(all.filter_remote.is_empty() && all.remote_rule.is_empty());
    let limited = surge_rules(&rulesets, 0, "", 2, &exists);
    assert_eq!(limited.rules, vec!["GEOIP,CN,Direct", "DOMAIN,a.com,A"]);
    let loon = surge_rules(&rulesets, -4, "", 0, &exists);
    assert_eq!(
        loon.rules,
        vec!["GEOIP,CN,Direct", "DOMAIN,a.com,A", "DOMAIN,b.com,A", "FINAL,Final"]
    );
    assert_eq!(loon.remote_rule, vec!["https://x/r.list,Proxy"]);
}

use subconverter::generator::config::formats::surge::surge_ssr_line;

#[test]
fn surge_ssr_external_lines() {
    let mut r = surge_node(ProxyType::ShadowsocksR);
    r.encrypt_method = Some("aes-256-cfb".to_string());
    r.password = Some("pw".to_string());
    r.obfs = Some("plain".to_string());
    r.protocol = Some("origin".to_string());
    r.protocol_param = Some("pp".to_string());
    r.udp = Some(true);
    assert_eq!(
        surge_ssr_line(&r, None, Some(false), "/bin/ssr", 1080, Some("1.2.3.4")),
        "external, exec=\"/bin/ssr\", args=\"-l\", args=\"1080\", args=\"-s\", args=\"h.example\", args=\"-p\", args=\"8443\", args=\"-m\", args=\"aes-256-cfb\", args=\"-k\", args=\"pw\", args=\"-o\", args=\"plain\", args=\"-O\", args=\"origin\", args=\"-G\", args=\"pp\", local-port=1080, addresses=1.2.3.4, tfo=false, udp-relay=true"
    );
    assert_eq!(
        surge_ssr_line(&r, None, None, "x", 7, None),
        "external, exec=\"x\", args=\"-l\", args=\"7\", args=\"-s\", args=\"h.example\", args=\"-p\", args=\"8443\", args=\"-m\", args=\"aes-256-cfb\", args=\"-k\", args=\"pw\", args=\"-o\", args=\"plain\", args=\"-O\", args=\"origin\", args=\"-G\", args=\"pp\", local-port=7, udp-relay=true"
    );
}

#[test]
fn quanx_rewrite_pattern_does_not_compile() {
    let pattern = r"^((?i:DOMAIN(?:-(?:SUFFIX|KEYWORD))?|IP-CIDR6?|USER-AGENT),)\s*?(\S*?)(?:,(?!no-resolve).*?)(,no-resolve)?$";
    assert!(regex::Regex::new(pattern).is_err());
}

#[test]
fn loon_node_list_lines() {
    let mut ss = surge_node(ProxyType::Shadowsocks);
    ss.encrypt_method = Some("aes-128-gcm".to_string());
    ss.password = Some("pw".to_string());
    let mut bad = ss.clone();
    bad.plugin = Some("v2ray-plugin".to_string());
    let mut http = surge_node(ProxyType::HTTP);
    http.password = Some("p".to_string());
    let nodes = vec![ss, bad, http];
    let remarks = vec!["A".to_string(), "B".to_string(), "C".to_string()];
    assert_eq!(
        loon_node_list(&nodes, &remarks, None, None, None),
        "A = Shadowsocks,h.example,8443,aes-128-gcm,\"pw\"\nC = http,h.example,8443\n"
    );
}

#[test]
fn surge_wireguard_section() {
    let mut wg = surge_node(ProxyType::WireGuard);
    wg.private_key = Some("priv".to_string());
    wg.self_ip = Some("10.0.0.2".to_string());
    wg.self_ipv6 = Some(String::new());
    wg.public_key = Some("pub".to_string());
    wg.dns_servers = vec!["1.1.1.1".to_string(), "8.8.8.8".to_string()];
    wg.mtu = 1280;
    wg.test_url = Some("http://t".to_string());
    wg.udp = Some(true);
    let r = surge::surge_wireguard(&wg, "0a1b2", None, None);
    assert_eq!(r.line, "wireguard, section-name=0a1b2, test-url=http://t, udp-relay=true");
    assert_eq!(r.section, "WireGuard 0a1b2");
    let settings: Vec<(&str, &str)> = r.settings.iter().map(|(k, v)| (k.as_str(), v.as_str())).collect();
    assert_eq!(
        settings,
        vec![
            ("private-key", "priv"),
            ("self-ip", "10.0.0.2"),
            ("dns-server", "1.1.1.1,8.8.8.8"),
            ("mtu", "1280"),
            ("peer", "(public-key = pub, endpoint = h.example:8443)"),
        ]
    );
}

#[test]
fn surfboard_node_list_keeps_every_node() {
    let mut h = Proxy::default();
    h.proxy_type = ProxyType::HTTPS;
    h.remark = "H".to_string();
    h.hostname = "h".to_string();
    h.port = 443;
    h.username = Some("u".to_string());
    h.password = Some("p".to_string());
    let mut s = Proxy::default();
    s.proxy_type = ProxyType::Socks5;
    s.remark = "S".to_string();
    s.hostname = "s".to_string();
    s.port = 1080;
    let mut w = surge_node(ProxyType::WireGuard);
    w.remark = "W".to_string();
    let nodes = vec![h, w, s];
    let remarks = vec!["H".to_string(), "W".to_string(), "S".to_string()];
    let made = vec![None, Some("wireguard, section-name=abcde".to_string()), None];
    assert_eq!(
        surge::surge_node_list(&nodes, &remarks, &made, None, None, None, None, -3, ""),
        "H = https, h, 443, u, p\nW = wireguard, section-name=abcde\nS = socks5, s, 1080\n"
    );
}

#[test]
fn ssr_ports_count_up_from_1080() {
    let nodes = vec![
        surge_node(ProxyType::ShadowsocksR),
        surge_node(ProxyType::Socks5),
        surge_node(ProxyType::ShadowsocksR),
        surge_node(ProxyType::ShadowsocksR),
    ];
    assert_eq!(surge::ssr_local_ports(&nodes, 4, "/bin/ssr"), vec![1080, 1081, 1081, 1082]);
    assert_eq!(surge::ssr_local_ports(&nodes, 4, ""), vec![1080, 1080, 1080, 1080]);
}

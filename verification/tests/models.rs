use subconverter::models::cron::CronTaskConfig;
use subconverter::models::proxy::{Proxy, ProxyType};
use subconverter::models::proxy_group_config::{BalanceStrategy, ProxyGroupConfig, ProxyGroupType};
use subconverter::models::proxy_node::CombinedProxy;
use subconverter::models::ruleset::{get_ruleset_type_from_url, parse_ruleset, RulesetContent, RulesetType};
use subconverter::models::subconverter_target::SubconverterTarget;
use subconverter::settings::ExternalSettings;

#[test]
fn group_type_names() {
    assert_eq!(ProxyGroupType::Select.as_str(), "select");
    assert_eq!(ProxyGroupType::URLTest.as_str(), "url-test");
    assert_eq!(ProxyGroupType::Fallback.as_str(), "fallback");
    assert_eq!(ProxyGroupType::LoadBalance.as_str(), "load-balance");
    assert_eq!(ProxyGroupType::Relay.as_str(), "relay");
    assert_eq!(ProxyGroupType::SSID.as_str(), "ssid");
    assert_eq!(ProxyGroupType::Smart.as_str(), "smart");
    assert_eq!(BalanceStrategy::ConsistentHashing.as_str(), "consistent-hashing");
    assert_eq!(BalanceStrategy::RoundRobin.as_str(), "round-robin");
}

#[test]
fn group_config_new_keeps_defaults() {
    let g = ProxyGroupConfig::new("Auto".to_string(), ProxyGroupType::URLTest);
    assert_eq!(g.name, "Auto");
    assert_eq!(g.type_str(), "url-test");
    assert_eq!(g.strategy_str(), "consistent-hashing");
    assert!(g.proxies.is_empty());
    assert!(g.using_provider.is_empty());
    assert_eq!(g.url, "");
    assert_eq!(g.interval, 0);
    assert_eq!(g.timeout, 0);
    assert_eq!(g.tolerance, 0);
    assert!(!g.lazy && !g.disable_udp && !g.persistent && !g.evaluate_before_use);
    let d = ProxyGroupConfig::default();
    assert_eq!(d.name, "");
    assert_eq!(d.group_type, ProxyGroupType::Select);
}

#[test]
fn cron_task_default_is_empty() {
    let c = CronTaskConfig::default();
    assert_eq!(c.name, "");
    assert_eq!(c.cron_exp, "");
    assert_eq!(c.path, "");
    assert_eq!(c.timeout, 0);
}

#[test]
fn ruleset_type_from_url_prefixes() {
    assert_eq!(get_ruleset_type_from_url("clash-domain:https://a/b"), Some(RulesetType::ClashDomain));
    assert_eq!(get_ruleset_type_from_url("clash-ipcidr:x"), Some(RulesetType::ClashIpcidr));
    assert_eq!(get_ruleset_type_from_url("clash-classical:x"), Some(RulesetType::ClashClassical));
    assert_eq!(get_ruleset_type_from_url("quanx:x"), Some(RulesetType::Quanx));
    assert_eq!(get_ruleset_type_from_url("surge:x"), Some(RulesetType::Surge));
    assert_eq!(get_ruleset_type_from_url("https://example.com/rules.list"), None);
    assert_eq!(get_ruleset_type_from_url(""), None);
    assert_eq!(RulesetType::default(), RulesetType::Surge);
}

#[test]
fn ruleset_content_read_after_write() {
    let mut r = RulesetContent::new("rules/a.list", "Proxy");
    assert_eq!(r.group, "Proxy");
    assert_eq!(r.rule_path, "rules/a.list");
    assert_eq!(r.rule_path_typed, "rules/a.list");
    assert_eq!(r.rule_type, RulesetType::Surge);
    assert!(!r.has_rule_content());
    assert_eq!(r.get_rule_content(), "");
    r.set_rule_content("DOMAIN,example.com");
    assert!(r.has_rule_content());
    assert_eq!(r.get_rule_content(), "DOMAIN,example.com");
    r.set_rule_content("");
    assert!(r.has_rule_content());
    assert_eq!(r.get_rule_content(), "");
    assert_eq!(r.group, "Proxy");
}

#[test]
fn parse_ruleset_holds_content() {
    let r = parse_ruleset("IP-CIDR,1.1.1.1/32", "DIRECT");
    assert_eq!(r.group, "DIRECT");
    assert_eq!(r.rule_path, "");
    assert_eq!(r.get_rule_content(), "IP-CIDR,1.1.1.1/32");
    assert_eq!(r.update_interval, 0);
}

#[test]
fn target_names_round_trip() {
    let all = [
        SubconverterTarget::Auto,
        SubconverterTarget::Clash,
        SubconverterTarget::ClashR,
        SubconverterTarget::Surfboard,
        SubconverterTarget::Mellow,
        SubconverterTarget::SSSub,
        SubconverterTarget::SS,
        SubconverterTarget::SSR,
        SubconverterTarget::V2Ray,
        SubconverterTarget::Trojan,
        SubconverterTarget::Mixed,
        SubconverterTarget::Quantumult,
        SubconverterTarget::QuantumultX,
        SubconverterTarget::Loon,
        SubconverterTarget::SSD,
        SubconverterTarget::SingBox,
    ];
    for t in all.iter() {
        assert_eq!(SubconverterTarget::from_str(&t.to_str()), Some(*t));
    }
    assert_eq!(SubconverterTarget::Surge(4).to_str(), "surge4");
    assert_eq!(SubconverterTarget::Surge(-2).to_str(), "surge-2");
    assert_eq!(SubconverterTarget::from_str("surge4"), None);
}

#[test]
fn target_from_str_aliases_and_case() {
    assert_eq!(SubconverterTarget::from_str("CLASH"), Some(SubconverterTarget::Clash));
    assert_eq!(SubconverterTarget::from_str("surge"), Some(SubconverterTarget::Surge(3)));
    assert_eq!(SubconverterTarget::from_str("shadowrocket"), Some(SubconverterTarget::Mixed));
    assert_eq!(SubconverterTarget::from_str("SurfboardIOS"), Some(SubconverterTarget::Surfboard));
    assert_eq!(SubconverterTarget::from_str("quan"), Some(SubconverterTarget::Quantumult));
    assert_eq!(SubconverterTarget::from_str("nonsense"), None);
}

#[test]
fn target_kinds() {
    assert!(SubconverterTarget::Clash.is_clash());
    assert!(SubconverterTarget::ClashR.is_clash());
    assert!(!SubconverterTarget::Loon.is_clash());
    assert!(SubconverterTarget::SS.is_simple());
    assert!(SubconverterTarget::SSD.is_simple());
    assert!(SubconverterTarget::Trojan.is_simple());
    assert!(!SubconverterTarget::Clash.is_simple());
    assert!(!SubconverterTarget::Mixed.is_simple());
}

#[test]
fn external_base_per_target() {
    let mut e = ExternalSettings::default();
    e.clash_rule_base = "base/clash.yml".to_string();
    e.surge_rule_base = "".to_string();
    assert_eq!(
        SubconverterTarget::ClashR.get_base_content_from_external(&e),
        Some("base/clash.yml".to_string())
    );
    assert_eq!(SubconverterTarget::Surge(4).get_base_content_from_external(&e), None);
    assert_eq!(SubconverterTarget::SS.get_base_content_from_external(&e), None);
}

#[test]
fn common_construct_sets_shared_fields() {
    let p = Proxy::common_construct(
        ProxyType::Socks5,
        "G",
        "R",
        "example.com",
        1080,
        Some(true),
        None,
        Some(false),
        None,
        "",
    );
    assert_eq!(p.proxy_type, ProxyType::Socks5);
    assert_eq!(p.group, "G");
    assert_eq!(p.remark, "R");
    assert_eq!(p.hostname, "example.com");
    assert_eq!(p.port, 1080);
    assert_eq!(p.udp, Some(true));
    assert_eq!(p.allow_insecure, Some(false));
    assert_eq!(p.underlying_proxy, Some(String::new()));
    assert_eq!(p.password, None);
}

#[test]
fn vmess_construct_fills_defaults() {
    let p = Proxy::vmess_construct(
        "G", "R", "example.com", 443, "none", "", 0, "", "", "", "", "", "tls", "", None, None, None,
        None, "", false,
    );
    assert_eq!(p.proxy_type, ProxyType::VMess);
    assert_eq!(p.user_id.as_deref(), Some("00000000-0000-0000-0000-000000000000"));
    assert_eq!(p.transfer_protocol.as_deref(), Some("tcp"));
    assert_eq!(p.encrypt_method, None);
    assert_eq!(p.edge, None);
    assert_eq!(p.server_name, None);
    assert!(p.tls_secure);
    assert_eq!(p.host.as_deref(), Some("example.com"));
    assert_eq!(p.path.as_deref(), Some("/"));
    assert_eq!(p.fake_type.as_deref(), Some("none"));
    assert_eq!(p.quic_secure, None);
}

#[test]
fn vmess_construct_ip_server_and_quic() {
    let p = Proxy::vmess_construct(
        "G", "R", "1.2.3.4", 443, "none", "abc", 2, "ws", "auto", " /p ", "", "e", "", "sni.example",
        None, None, None, None, "", true,
    );
    assert_eq!(p.user_id.as_deref(), Some("abc"));
    assert_eq!(p.alter_id, 2);
    assert_eq!(p.encrypt_method.as_deref(), Some("auto"));
    assert_eq!(p.host.as_deref(), Some(""));
    assert_eq!(p.path.as_deref(), Some("/p"));
    assert_eq!(p.edge.as_deref(), Some("e"));
    assert_eq!(p.server_name.as_deref(), Some("sni.example"));
    assert!(!p.tls_secure);
    let q = Proxy::vmess_construct(
        "G", "R", "a.example", 443, "none", "abc", 0, "quic", "", "key", "aes", "", "", "", None,
        None, None, None, "", false,
    );
    assert_eq!(q.quic_secure.as_deref(), Some("aes"));
    assert_eq!(q.quic_secret.as_deref(), Some("key"));
    assert_eq!(q.host, None);
    assert_eq!(q.path, None);
}

#[test]
fn ss_construct_keeps_combined_details() {
    let p = Proxy::ss_construct(
        "G", "R", "s.example", 8388, "pw", "aes-256-gcm", "", "", Some(true), None, None, None, "",
    );
    assert_eq!(p.proxy_type, ProxyType::Shadowsocks);
    assert_eq!(p.password.as_deref(), Some("pw"));
    assert_eq!(p.encrypt_method.as_deref(), Some("aes-256-gcm"));
    assert_eq!(p.plugin.as_deref(), Some(""));
    match p.combined_proxy {
        Some(CombinedProxy::Shadowsocks(ss)) => {
            assert_eq!(ss.server, "s.example");
            assert_eq!(ss.port, 8388);
            assert_eq!(ss.cipher, "aes-256-gcm");
            assert_eq!(ss.plugin, None);
            assert_eq!(ss.plugin_opts, None);
            assert_eq!(ss.udp, Some(true));
        }
        _ => panic!("expected shadowsocks details"),
    }
}

#[test]
fn http_construct_picks_https_for_tls() {
    let p = Proxy::http_construct("G", "R", "h.example", 443, "u", "p", true, None, None, None, "");
    assert_eq!(p.proxy_type, ProxyType::HTTPS);
    assert!(p.tls_secure);
    assert_eq!(p.udp, None);
    let q = Proxy::http_construct("G", "R", "h.example", 80, "u", "p", false, None, None, None, "");
    assert_eq!(q.proxy_type, ProxyType::HTTP);
    assert_eq!(q.username.as_deref(), Some("u"));
}

#[test]
fn ssr_and_socks_construct() {
    let p = Proxy::ssr_construct(
        "G", "R", "s", 1, "origin", "aes-128-cfb", "plain", "pw", "op", "pp", None, None, None, "",
    );
    assert_eq!(p.proxy_type, ProxyType::ShadowsocksR);
    assert_eq!(p.protocol.as_deref(), Some("origin"));
    assert_eq!(p.protocol_param.as_deref(), Some("pp"));
    assert_eq!(p.obfs.as_deref(), Some("plain"));
    assert_eq!(p.obfs_param.as_deref(), Some("op"));
    let s = Proxy::socks_construct("G", "R", "s", 1080, "u", "p", None, None, None, "");
    assert_eq!(s.proxy_type, ProxyType::Socks5);
    assert_eq!(s.username.as_deref(), Some("u"));
    assert_eq!(s.password.as_deref(), Some("p"));
}

#[test]
fn snell_and_wireguard_construct() {
    let s = Proxy::snell_construct(
        "G".to_string(),
        "R".to_string(),
        "s".to_string(),
        443,
        "psk".to_string(),
        "http".to_string(),
        "h".to_string(),
        3,
        None,
        None,
        None,
        None,
    );
    assert_eq!(s.proxy_type, ProxyType::Snell);
    assert_eq!(s.snell_version, 3);
    assert_eq!(s.host.as_deref(), Some("h"));
    assert_eq!(s.tls13, None);
    let w = Proxy::wireguard_construct(
        "G".to_string(),
        "R".to_string(),
        "w".to_string(),
        51820,
        "10.0.0.2".to_string(),
        "".to_string(),
        "priv".to_string(),
        "pub".to_string(),
        "".to_string(),
        vec!["1.1.1.1".to_string(), "8.8.8.8".to_string(), "1.1.1.1".to_string()],
        Some(1420),
        None,
        "".to_string(),
        "".to_string(),
        Some(true),
        None,
    );
    assert_eq!(w.dns_servers, vec!["1.1.1.1".to_string(), "8.8.8.8".to_string()]);
    assert_eq!(w.mtu, 1420);
    assert_eq!(w.keep_alive, 0);
    assert_eq!(w.public_key.as_deref(), Some("pub"));
}

#[test]
fn dedup_keeps_first_occurrences_once() {
    let v = vec!["h2".to_string(), "http/1.1".to_string(), "h2".to_string(), "h3".to_string()];
    assert_eq!(subconverter::text::dedup_strings(&v), vec!["h2", "http/1.1", "h3"]);
    assert!(subconverter::text::dedup_strings(&Vec::<String>::new()).is_empty());
}

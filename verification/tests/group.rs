use subconverter::generator::config::formats::loon::loon_group_lines;
use subconverter::generator::config::formats::mellow::mellow_group_lines;
use subconverter::generator::config::formats::quan::quan_group_lines;
use subconverter::generator::config::formats::quanx::quanx_group_lines;
use subconverter::generator::config::formats::surge::{surge_group_lines, SurgeGroupLine};
use subconverter::generator::config::group::{generate_members, group_generate};
use subconverter::models::extra_settings::ExtraSettings;
use subconverter::models::proxy::{Proxy, ProxyType};
use subconverter::models::proxy_group_config::{ProxyGroupConfig, ProxyGroupType};
use subconverter::settings::Settings;
use subconverter::utils::base64::base64_encode;
use subconverter::utils::matcher::apply_matcher;

fn create_test_nodes() -> Vec<Proxy> {
    vec![
        Proxy {
            id: 1,
            group_id: 1,
            group: "HK".to_string(),
            remark: "HK Node 1".to_string(),
            hostname: "hk1.example.com".to_string(),
            port: 443,
            proxy_type: ProxyType::Shadowsocks,
            udp: Some(true),
            ..Default::default()
        },
        Proxy {
            id: 2,
            group_id: 1,
            group: "HK".to_string(),
            remark: "HK Node 2".to_string(),
            hostname: "hk2.example.com".to_string(),
            port: 8388,
            proxy_type: ProxyType::Shadowsocks,
            ..Default::default()
        },
        Proxy {
            id: 3,
            group_id: 2,
            group: "JP".to_string(),
            remark: "JP Node 1".to_string(),
            hostname: "jp1.example.com".to_string(),
            port: 443,
            proxy_type: ProxyType::VMess,
            ..Default::default()
        },
        Proxy {
            id: 4,
            group_id: 3,
            group: "US".to_string(),
            remark: "US Node 1".to_string(),
            hostname: "us1.example.com".to_string(),
            port: 8080,
            proxy_type: ProxyType::Trojan,
            ..Default::default()
        },
    ]
}

fn default_ext() -> ExtraSettings {
    ExtraSettings::from_settings(&Settings {
        enable_rule_gen: true,
        overwrite_original_rules: true,
        surge_ssr_path: String::new(),
        clash_proxies_style: String::new(),
        clash_proxy_groups_style: String::new(),
        ..Settings::default()
    })
}

#[test]
fn test_group_generate_direct_string() {
    let nodes = create_test_nodes();
    let mut filtered = Vec::new();
    let ext = default_ext();
    group_generate("[]DIRECT", &nodes, &mut filtered, true, &ext);
    assert_eq!(filtered.len(), 1);
    assert_eq!(filtered[0], "DIRECT");
}

#[test]
fn test_group_generate_with_group_match() {
    let nodes = create_test_nodes();
    let mut filtered = Vec::new();
    let ext = default_ext();
    group_generate("!!GROUP=HK", &nodes, &mut filtered, true, &ext);
    assert_eq!(filtered.len(), 2);
    assert!(filtered.contains(&"HK Node 1".to_string()));
    assert!(filtered.contains(&"HK Node 2".to_string()));
}

#[test]
fn test_group_generate_with_type_match() {
    let nodes = create_test_nodes();
    let mut filtered = Vec::new();
    let ext = default_ext();
    group_generate("!!TYPE=VMESS", &nodes, &mut filtered, true, &ext);
    assert_eq!(filtered.len(), 1);
    assert_eq!(filtered[0], "JP Node 1");
}

#[test]
fn test_group_generate_with_port_match() {
    let nodes = create_test_nodes();
    let mut filtered = Vec::new();
    let ext = default_ext();
    group_generate("!!PORT=443", &nodes, &mut filtered, true, &ext);
    assert_eq!(filtered.len(), 2);
    assert!(filtered.contains(&"HK Node 1".to_string()));
    assert!(filtered.contains(&"JP Node 1".to_string()));
}

#[test]
fn test_group_generate_empty_result_with_direct() {
    let nodes = create_test_nodes();
    let mut filtered = Vec::new();
    let ext = default_ext();
    group_generate("!!GROUP=SG", &nodes, &mut filtered, true, &ext);
    assert_eq!(filtered.len(), 1);
    assert_eq!(filtered[0], "DIRECT");
}

#[test]
fn test_group_generate_empty_result_without_direct() {
    let nodes = create_test_nodes();
    let mut filtered = Vec::new();
    let ext = default_ext();
    group_generate("!!GROUP=SG", &nodes, &mut filtered, false, &ext);
    assert_eq!(filtered.len(), 0);
}

#[test]
fn test_group_generate_with_regex_match() {
    let nodes = create_test_nodes();
    let mut filtered = Vec::new();
    let ext = default_ext();
    group_generate("Node \\d", &nodes, &mut filtered, true, &ext);
    assert_eq!(filtered.len(), 4);
    assert!(filtered.contains(&"HK Node 1".to_string()));
    assert!(filtered.contains(&"HK Node 2".to_string()));
    assert!(filtered.contains(&"JP Node 1".to_string()));
    assert!(filtered.contains(&"US Node 1".to_string()));
}

#[test]
fn matcher_rules() {
    let nodes = create_test_nodes();
    assert_eq!(apply_matcher("!!GROUP=hk!!Node 2", &nodes[1]), (true, "Node 2".to_string()));
    assert_eq!(apply_matcher("!!GROUPID=1-2", &nodes[2]), (true, String::new()));
    assert_eq!(apply_matcher("!!GROUPID=1", &nodes[3]).0, false);
    assert_eq!(apply_matcher("!!INSERT=-3", &nodes[3]).0, true);
    assert_eq!(apply_matcher("!!SERVER=jp", &nodes[2]).0, true);
    assert_eq!(apply_matcher("!!TYPE=SS|TROJAN", &nodes[3]).0, true);
    assert_eq!(apply_matcher("!!TYPE=S", &nodes[0]).0, false);
    assert_eq!(apply_matcher("!!PORT=>1000", &nodes[1]).0, true);
    assert_eq!(apply_matcher("US", &nodes[0]), (true, "US".to_string()));
    let ext = default_ext();
    let mut filtered = vec!["first".to_string()];
    group_generate("!!GROUP=HK!!1$", &nodes, &mut filtered, false, &ext);
    assert_eq!(filtered, vec!["first".to_string(), "HK Node 1".to_string()]);
    let mut authorized = default_ext();
    authorized.authorized = true;
    group_generate("script:x", &nodes, &mut filtered, true, &authorized);
    assert_eq!(filtered.len(), 2);
}

#[test]
fn members_from_all_rules() {
    let nodes = create_test_nodes();
    let ext = default_ext();
    let rules = vec!["!!GROUP=HK".to_string(), "[]DIRECT".to_string(), "!!PORT=8080".to_string()];
    assert_eq!(
        generate_members(&rules, &nodes, true, &ext),
        vec!["HK Node 1", "HK Node 2", "DIRECT", "US Node 1"]
    );
    assert_eq!(generate_members(&rules, &nodes, false, &ext), vec!["HK Node 1", "HK Node 2", "US Node 1"]);
}

fn sample_groups() -> Vec<ProxyGroupConfig> {
    let mut select = ProxyGroupConfig::new("Proxy".to_string(), ProxyGroupType::Select);
    select.proxies = vec!["HK".to_string(), "[]DIRECT".to_string()];
    let mut auto = ProxyGroupConfig::new("Auto".to_string(), ProxyGroupType::URLTest);
    auto.proxies = vec!["JP".to_string()];
    auto.url = "http://t".to_string();
    auto.interval = 300;
    auto.tolerance = 50;
    let mut block = ProxyGroupConfig::new("Block".to_string(), ProxyGroupType::Select);
    block.proxies = vec!["[]REJECT".to_string()];
    let mut relay = ProxyGroupConfig::new("Chain".to_string(), ProxyGroupType::Relay);
    relay.proxies = vec!["HK".to_string()];
    let mut ssid = ProxyGroupConfig::new("Home".to_string(), ProxyGroupType::SSID);
    ssid.proxies = vec!["Proxy".to_string(), "home=DIRECT".to_string()];
    let mut empty = ProxyGroupConfig::new("None".to_string(), ProxyGroupType::Fallback);
    empty.proxies = vec!["KR".to_string()];
    vec![select, auto, block, relay, ssid, empty]
}

#[test]
fn surge_lines_for_each_group() {
    let nodes = create_test_nodes();
    let lines = surge_group_lines(&sample_groups(), &nodes, 3, &default_ext());
    assert_eq!(lines.len(), 6);
    assert!(matches!(&lines[0], SurgeGroupLine::Group(s) if s == "Proxy = select,HK Node 1,HK Node 2,DIRECT"));
    assert!(
        matches!(&lines[1], SurgeGroupLine::Group(s) if s == "Auto = url-test,JP Node 1,url=http://t,interval=300,tolerance=50")
    );
    assert!(matches!(&lines[2], SurgeGroupLine::Proxy(s) if s == "Block = reject"));
    assert!(matches!(&lines[3], SurgeGroupLine::Skip));
    assert!(matches!(&lines[4], SurgeGroupLine::Group(s) if s == "Home = ssid,default=Proxy,home=DIRECT"));
    assert!(matches!(&lines[5], SurgeGroupLine::Proxy(s) if s == "None = direct"));
}

#[test]
fn loon_lines_for_each_group() {
    let nodes = create_test_nodes();
    let lines = loon_group_lines(&sample_groups(), &nodes, &default_ext());
    assert_eq!(lines[0].as_deref(), Some("Proxy = select,HK Node 1,HK Node 2,DIRECT"));
    assert_eq!(lines[1].as_deref(), Some("Auto = url-test,JP Node 1,url=http://t,interval=300,tolerance=50"));
    assert_eq!(lines[2].as_deref(), Some("Block = select,REJECT"));
    assert_eq!(lines[3], None);
    assert_eq!(lines[4].as_deref(), Some("Home = ssid,default=Proxy,home=DIRECT"));
    assert_eq!(lines[5].as_deref(), Some("None = fallback,DIRECT,url=,interval=0,max-timeout=0"));
}

#[test]
fn quanx_lines_for_each_group() {
    let nodes = create_test_nodes();
    let lines = quanx_group_lines(&sample_groups(), &nodes, &[], &default_ext());
    assert_eq!(lines[0].as_deref(), Some("static=Proxy, HK Node 1, HK Node 2, DIRECT"));
    assert_eq!(lines[1].as_deref(), Some("static=Auto, JP Node 1, check-interval=300, tolerance=50"));
    assert_eq!(lines[2].as_deref(), Some("static=Block, REJECT"));
    assert_eq!(lines[3], None);
    assert_eq!(lines[4].as_deref(), Some("ssid=Home, Proxy, home:DIRECT"));
    assert_eq!(lines[5].as_deref(), Some("static=None, direct, check-interval=0"));
}

#[test]
fn mellow_lines_for_each_group() {
    let nodes = create_test_nodes();
    let remarks = vec!["A".to_string(), "B".to_string()];
    let lines = mellow_group_lines(&sample_groups(), &nodes, &remarks, &default_ext());
    assert_eq!(lines[0].as_deref(), Some("Proxy, HK Node 1:HK Node 2, latency, interval=300, timeout=6"));
    assert_eq!(lines[2].as_deref(), Some("Block, A:B, latency, interval=300, timeout=6"));
    assert_eq!(lines[3], None);
    assert_eq!(lines[4], None);
}

#[test]
fn quan_lines_for_each_group() {
    let nodes = create_test_nodes();
    let lines = quan_group_lines(&sample_groups(), &nodes, &default_ext());
    assert_eq!(lines.len(), 6);
    assert_eq!(lines[3], None);
    let expected = base64_encode("Auto : static, JP Node 1\nJP Node 1\n");
    assert_eq!(lines[1].as_deref(), Some(expected.as_str()));
    let expected = base64_encode("Proxy : static, HK Node 1\nHK Node 1\nHK Node 2\nDIRECT\n");
    assert_eq!(lines[0].as_deref(), Some(expected.as_str()));
}

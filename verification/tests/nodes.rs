use subconverter::generator::config::nodes::{add_node_emoji, apply_remark_rules, filter_nodes};
use subconverter::models::proxy::{Proxy, ProxyType};
use subconverter::models::regex_match_config::{rename_remark, RegexMatchConfig};

fn node(remark: &str, group: &str, port: u16) -> Proxy {
    let mut p = Proxy::default();
    p.proxy_type = ProxyType::Shadowsocks;
    p.remark = remark.to_string();
    p.group = group.to_string();
    p.group_id = 1;
    p.hostname = "h".to_string();
    p.port = port;
    p
}

fn rule(m: &str, r: &str) -> RegexMatchConfig {
    RegexMatchConfig::new(m.to_string(), r.to_string(), String::new())
}

#[test]
fn process_replaces_matches_ignoring_case() {
    let mut remark = "Hong Kong 01 hong kong".to_string();
    rule("hong kong", "HK").process(&mut remark);
    assert_eq!(remark, "HK 01 HK");
    let mut other = "Japan 02".to_string();
    rule("hong kong", "HK").process(&mut other);
    assert_eq!(other, "Japan 02");
    let mut grouped = "US-01".to_string();
    rule("(US)-(\\d+)", "$2 $1").process(&mut grouped);
    assert_eq!(grouped, "01 US");
}

#[test]
fn rules_apply_in_order() {
    let rules = vec![rule("Hong Kong", "HK"), rule("HK", "香港")];
    assert_eq!(rename_remark(&rules, "Hong Kong 1"), "香港 1");
    let mut nodes = vec![node("Hong Kong 1", "g", 1), node("Japan", "g", 2)];
    apply_remark_rules(&rules, &mut nodes);
    assert_eq!(nodes[0].remark, "香港 1");
    assert_eq!(nodes[1].remark, "Japan");
    assert_eq!(nodes[1].port, 2);
}

#[test]
fn emoji_from_first_rule_that_chooses() {
    let rules = vec![rule("nothing", ""), rule("(?i)japan", "🇯🇵"), rule("Japan|Hong", "🌐")];
    let mut nodes = vec![node("Japan 1", "g", 1), node("Hong Kong", "g", 2), node("US", "g", 3)];
    add_node_emoji(&rules, &mut nodes);
    assert_eq!(nodes[0].remark, "🇯🇵 Japan 1");
    assert_eq!(nodes[1].remark, "🌐 Hong Kong");
    assert_eq!(nodes[2].remark, "US");
}

#[test]
fn filters_by_remark() {
    let nodes = vec![node("HK 1", "a", 1), node("HK 2 expired", "a", 2), node("JP 1", "b", 3)];
    let kept = filter_nodes(nodes.clone(), &vec!["HK".to_string()], &vec!["expired".to_string()]);
    let remarks: Vec<&str> = kept.iter().map(|n| n.remark.as_str()).collect();
    assert_eq!(remarks, vec!["HK 1"]);
    let all = filter_nodes(nodes.clone(), &vec![], &vec![]);
    assert_eq!(all.len(), 3);
    let by_port = filter_nodes(nodes, &vec!["!!PORT=3".to_string()], &vec![]);
    assert_eq!(by_port[0].remark, "JP 1");
    assert_eq!(by_port.len(), 1);
}

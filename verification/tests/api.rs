use subconverter::api::sub::request_target;
use subconverter::api::rules::{
    destination_path, extract_owner_from_url, extract_repo_from_url, github_owner_repo,
    github_raw_url, github_tree_url, matches_any_pattern, pattern_matches, repo_section,
    RepoUpdateResult, RulesUpdateResult,
};
use subconverter::interfaces::subconverter::{
    prepend_proxy_direct_ruleset, ParseOptions, RuleBases, UploadStatus,
};
use subconverter::models::proxy::Proxy;
use subconverter::models::ruleset::{RulesetContent, RulesetType};
use subconverter::models::subconverter_target::SubconverterTarget;
use subconverter::utils::network::is_ipv4;

#[test]
fn glob_patterns() {
    assert!(pattern_matches("rules/*.list", "rules/ads.list"));
    assert!(!pattern_matches("rules/*.list", "rules/ads.yaml"));
    assert!(!pattern_matches("rules/*.list", "rules/sub/ads.list"));
    assert!(pattern_matches("rules/**", "rules/sub/deep/ads.list"));
    assert!(pattern_matches("**", "anything/at/all"));
    assert!(pattern_matches("a/b", "a/b"));
    assert!(!pattern_matches("a/b", "a/c"));
    assert!(pattern_matches("*/x", "abc/x"));
    assert!(pattern_matches("a*c/x", "abbbc/x"));
    assert!(!pattern_matches("a*c/x", "abbbd/x"));
}

#[test]
fn glob_any_pattern() {
    let ps = vec!["*.yaml".to_string(), "rules/*.list".to_string()];
    assert!(matches_any_pattern("rules/x.list", &ps));
    assert!(matches_any_pattern("c.yaml", &ps));
    assert!(!matches_any_pattern("c.txt", &ps));
    assert!(!matches_any_pattern("c.yaml", &[]));
}

#[test]
fn github_owner_and_repo() {
    let url = "https://github.com/ACL4SSR/ACL4SSR";
    assert_eq!(extract_owner_from_url(url), Some("ACL4SSR".to_string()));
    assert_eq!(extract_repo_from_url(url), Some("ACL4SSR".to_string()));
    assert_eq!(extract_owner_from_url("https://gitlab.com/a/b"), None);
    assert_eq!(extract_owner_from_url("https://github.com/a"), Some("a".to_string()));
    assert_eq!(extract_repo_from_url("https://github.com/a"), None);
    assert_eq!(extract_owner_from_url("github.com/a"), None);
    assert_eq!(
        extract_repo_from_url("https://www.github.com/owner/repo/tree/main"),
        Some("repo".to_string())
    );
}

#[test]
fn ipv4_text_forms() {
    assert!(is_ipv4("1.2.3.4"));
    assert!(is_ipv4("255.255.255.255"));
    assert!(is_ipv4("0.0.0.0"));
    assert!(!is_ipv4("256.1.1.1"));
    assert!(!is_ipv4("01.2.3.4"));
    assert!(!is_ipv4("1.2.3"));
    assert!(!is_ipv4("1.2.3.4.5"));
    assert!(!is_ipv4("a.b.c.d"));
    assert!(!is_ipv4(""));
    assert!(!is_ipv4("::1"));
}

#[test]
fn rule_bases_per_target() {
    let mut b = RuleBases::default();
    b.clash_rule_base = "base/clash.yml".to_string();
    b.surge_rule_base = "base/surge.conf".to_string();
    assert_eq!(b.base_path(&SubconverterTarget::ClashR), Some("base/clash.yml".to_string()));
    assert_eq!(b.base_path(&SubconverterTarget::Surge(4)), Some("base/surge.conf".to_string()));
    assert_eq!(b.base_path(&SubconverterTarget::Loon), Some(String::new()));
    assert_eq!(b.base_path(&SubconverterTarget::V2Ray), None);
}

#[test]
fn parse_options_default() {
    let o = ParseOptions::default();
    assert!(o.include_remarks.is_empty());
    assert!(o.exclude_remarks.is_empty());
    assert!(!o.authorized);
    assert!(matches!(UploadStatus::NotAttempted, UploadStatus::NotAttempted));
}

#[test]
fn direct_rules_go_first() {
    let mut a = Proxy::default();
    a.hostname = "1.2.3.4".to_string();
    let mut b = Proxy::default();
    b.hostname = "example.com".to_string();
    let mut c = Proxy::default();
    c.hostname = "2001:db8::1".to_string();
    let mut rules = vec![RulesetContent::new("old", "Proxy")];
    prepend_proxy_direct_ruleset(&mut rules, &[a, b, c], &[false, false, true]);
    assert_eq!(rules.len(), 4);
    assert_eq!(rules[0].get_rule_content(), "IP-CIDR6,2001:db8::1/128,no-resolve");
    assert_eq!(rules[1].get_rule_content(), "DOMAIN,example.com");
    assert_eq!(rules[2].get_rule_content(), "IP-CIDR,1.2.3.4/32,no-resolve");
    assert_eq!(rules[3].rule_path, "old");
    for r in rules.iter().take(3) {
        assert_eq!(r.group, "DIRECT");
        assert_eq!(r.rule_type, RulesetType::Surge);
        assert_eq!(r.rule_path, "");
    }
}

use subconverter::api::sub::{
    default_ver, is_not_attempted, parse_bool_number, parse_bool_text, parse_query_string,
    SubResponse,
};

#[test]
fn query_strings() {
    let q = parse_query_string("target=clash&url=a%7Cb&flag&x=1=2&target=surge");
    assert_eq!(
        q,
        vec![
            ("target".to_string(), "surge".to_string()),
            ("url".to_string(), "a%7Cb".to_string()),
            ("flag".to_string(), "".to_string()),
            ("x".to_string(), "1=2".to_string()),
        ]
    );
    assert_eq!(parse_query_string(""), vec![("".to_string(), "".to_string())]);
}

#[test]
fn boolean_options() {
    for t in ["true", "YES", "1", "On"] {
        assert_eq!(parse_bool_text(t), Some(true));
    }
    for f in ["false", "No", "0", "OFF"] {
        assert_eq!(parse_bool_text(f), Some(false));
    }
    assert_eq!(parse_bool_text("maybe"), None);
    assert_eq!(parse_bool_number(1), Some(true));
    assert_eq!(parse_bool_number(0), Some(false));
    assert_eq!(parse_bool_number(2), None);
    assert_eq!(default_ver(), 3);
}

#[test]
fn sub_responses() {
    let ok = SubResponse::ok("body".to_string(), "text/yaml".to_string());
    assert_eq!(ok.status_code, 200);
    assert!(ok.headers.is_empty());
    assert!(is_not_attempted(&ok.upload_status));
    let err = SubResponse::error("bad".to_string(), 400)
        .with_headers(vec![("a".to_string(), "b".to_string())])
        .with_upload_status(UploadStatus::Failure("x".to_string()));
    assert_eq!(err.content_type, "text/plain");
    assert_eq!(err.status_code, 400);
    assert_eq!(err.headers.len(), 1);
    assert!(!is_not_attempted(&err.upload_status));
}

#[test]
fn repo_section_defaults() {
    let r = repo_section("acl", "", "https://github.com/o/r", "", " a/*.list | b/** ", "", "")
        .unwrap();
    assert_eq!(r.repo_name, "acl");
    assert_eq!(r.url, "https://github.com/o/r");
    assert_eq!(r.branch, "main");
    assert_eq!(r.patterns, vec!["a/*.list".to_string(), "b/**".to_string()]);
    assert_eq!(r.dest_path, "base/rules/acl");
    assert!(r.keep_tree);
}

#[test]
fn repo_section_given_values() {
    let r = repo_section("s", "named", "u", "dev", "x", "out/", "false").unwrap();
    assert_eq!(r.repo_name, "named");
    assert_eq!(r.branch, "dev");
    assert_eq!(r.patterns, vec!["x".to_string()]);
    assert_eq!(r.dest_path, "out/");
    assert!(!r.keep_tree);
    let t = repo_section("s", "", "u", "", "x", "", "true").unwrap();
    assert!(t.keep_tree);
}

#[test]
fn repo_section_skipped() {
    assert!(repo_section("s", "", "", "", "x", "", "").is_none());
    assert!(repo_section("s", "", "u", "", "", "", "").is_none());
}

#[test]
fn github_urls() {
    let (o, r) = github_owner_repo("https://github.com/ACL4SSR/ACL4SSR");
    assert_eq!(o, "ACL4SSR");
    assert_eq!(r, "ACL4SSR");
    let (o, r) = github_owner_repo("not a url");
    assert_eq!(o, "unknown");
    assert_eq!(r, "unknown");
    assert_eq!(
        github_tree_url("o", "r", "main"),
        "https://api.github.com/repos/o/r/git/trees/main?recursive=1"
    );
    assert_eq!(
        github_raw_url("o", "r", "main", "a/b.list"),
        "https://raw.githubusercontent.com/o/r/main/a/b.list"
    );
}

#[test]
fn destination_paths() {
    assert_eq!(destination_path("base/rules/x", "a/b.list", "b.list", true), "base/rules/x/a/b.list");
    assert_eq!(destination_path("base/rules/x/", "a/b.list", "b.list", false), "base/rules/x/b.list");
    assert_eq!(destination_path("", "a", "a", true), "/a");
}

#[test]
fn repo_outcomes() {
    let all = RepoUpdateResult::from_updates(
        "r",
        &[("p1".to_string(), true), ("p2".to_string(), true)],
    );
    assert_eq!(all.status, "success");
    assert_eq!(all.files_updated, vec!["p1".to_string(), "p2".to_string()]);
    assert!(all.errors.is_empty());
    let some = RepoUpdateResult::from_updates(
        "r",
        &[("p1".to_string(), true), ("p2".to_string(), false)],
    );
    assert_eq!(some.status, "partial");
    assert_eq!(some.errors, vec!["Failed to update p2".to_string()]);
    let none = RepoUpdateResult::from_updates("r", &[("p2".to_string(), false)]);
    assert_eq!(none.status, "failed");
    let empty = RepoUpdateResult::from_updates("r", &[]);
    assert_eq!(empty.status, "success");
    let f = RepoUpdateResult::fetch_failed("r", "boom");
    assert_eq!(f.status, "failed");
    assert_eq!(f.errors, vec!["Failed to fetch repository: boom".to_string()]);
    assert_eq!(f.repo_name, "r");
}

#[test]
fn report_success_and_codes() {
    let mut rep = RulesUpdateResult::new();
    assert!(rep.success);
    rep.record("a".to_string(), RepoUpdateResult::from_updates("a", &[]));
    rep.finish();
    assert!(rep.success);
    assert_eq!(rep.message, "All rules updated successfully");
    assert_eq!(rep.status_code(), 200);
    rep.record("b".to_string(), RepoUpdateResult::fetch_failed("b", "x"));
    rep.finish();
    assert!(!rep.success);
    assert_eq!(rep.status_code(), 206);
    assert_eq!(
        rep.message,
        "Some rule updates failed. Check details for more information."
    );
    assert_eq!(rep.details.len(), 2);
    rep.record("a".to_string(), RepoUpdateResult::fetch_failed("a", "y"));
    assert_eq!(rep.details.len(), 2);
    assert_eq!(rep.details[0].0, "a");
    assert_eq!(rep.details[0].1.status, "failed");
}

use subconverter::settings::ExternalSettings;
use subconverter::utils::url::is_link;

#[test]
fn links_and_external_bases() {
    assert!(is_link("https://a/b"));
    assert!(is_link("http://a"));
    assert!(is_link("data:text/plain,x"));
    assert!(!is_link("base/clash.yml"));
    let mut dest = "old".to_string();
    assert!(subconverter::interfaces::subconverter::check_external_base("https://x/base.yml", &mut dest, "base", false));
    assert_eq!(dest, "https://x/base.yml");
    let mut dest = "old".to_string();
    assert!(!subconverter::interfaces::subconverter::check_external_base("base/a.yml", &mut dest, "base", false));
    assert_eq!(dest, "old");
    assert!(subconverter::interfaces::subconverter::check_external_base("base/a.yml", &mut dest, "base", true));
    assert_eq!(dest, "base/a.yml");
    assert!(!subconverter::interfaces::subconverter::check_external_base("other/a.yml", &mut dest, "base", true));

    let mut b = RuleBases::default();
    b.surge_rule_base = "keep".to_string();
    let mut e = ExternalSettings::default();
    e.clash_rule_base = "base/c.yml".to_string();
    e.surge_rule_base = "elsewhere/s.conf".to_string();
    e.loon_rule_base = "https://x/l.conf".to_string();
    b.check_external_bases(&e, "base", &|p: &str| p == "base/c.yml");
    assert_eq!(b.clash_rule_base, "base/c.yml");
    assert_eq!(b.surge_rule_base, "keep");
    assert_eq!(b.loon_rule_base, "https://x/l.conf");
    assert_eq!(b.quan_rule_base, "");
}

use subconverter::interfaces::subconverter::SubconverterConfigBuilder;
use subconverter::models::extra_settings::ExtraSettings;
use subconverter::models::regex_match_config::RegexMatchConfig;
use subconverter::settings::Settings;

fn settings() -> Settings {
    Settings {
        enable_rule_gen: true,
        overwrite_original_rules: false,
        surge_ssr_path: "/bin/ssr".to_string(),
        clash_proxies_style: String::new(),
        clash_proxy_groups_style: "block".to_string(),
        ..Settings::default()
    }
}

#[test]
fn extra_settings_defaults() {
    let e = ExtraSettings::from_settings(&settings());
    assert!(e.enable_rule_generator);
    assert!(!e.overwrite_original_rules);
    assert_eq!(e.surge_ssr_path, "/bin/ssr");
    assert_eq!(e.clash_proxies_style, "flow");
    assert_eq!(e.clash_proxy_groups_style, "block");
    assert!(e.clash_new_field_name);
    assert!(e.udp.is_none() && !e.nodelist);
}

#[test]
fn config_builder_settings() {
    let mut b = SubconverterConfigBuilder::new(&settings());
    b.target_from_str("SURGE")
        .surge_version(4)
        .add_url("https://a/sub")
        .add_insert_url("")
        .add_insert_url("https://b/ins")
        .add_include_remark("HK")
        .udp(Some(true))
        .sort(true)
        .clash_rule_base("base/clash.yml")
        .update_interval(3600)
        .rename_array(vec![RegexMatchConfig::new("a".to_string(), "b".to_string(), String::new())]);
    let c = b.build().unwrap();
    assert_eq!(c.target, SubconverterTarget::Surge(4));
    assert_eq!(c.urls, vec!["https://a/sub"]);
    assert_eq!(c.insert_urls, vec!["https://b/ins"]);
    assert_eq!(c.include_remarks, vec!["HK"]);
    assert_eq!(c.extra.udp, Some(true));
    assert!(c.extra.sort_flag);
    assert_eq!(c.rule_bases.clash_rule_base, "base/clash.yml");
    assert_eq!(c.update_interval, 3600);
    assert_eq!(c.extra.rename_array.len(), 1);
    assert_eq!(c.extra.rename_array[0]._match, "a");

    let mut b = SubconverterConfigBuilder::new(&settings());
    b.target_from_str("nonsense").surge_version(3);
    b.urls_from_str(" a | b ||c ");
    b.insert_urls(vec!["".to_string(), "x".to_string()]);
    let c = b.build().unwrap();
    assert_eq!(c.target, SubconverterTarget::Clash);
    assert_eq!(c.urls, vec!["a", "b", "", "c"]);
    assert_eq!(c.insert_urls, vec!["x"]);
    assert_eq!(c.update_interval, 86400);

    let b = SubconverterConfigBuilder::new(&settings());
    assert_eq!(b.build().unwrap_err(), "No URLs provided");
    let mut b = SubconverterConfigBuilder::new(&settings());
    b.insert_urls_from_str("i");
    assert!(b.build().is_ok());
}

use subconverter::interfaces::subconverter::{
    apply_group_name, link_types, merge_nodes, parse_options, response_headers, upload_target,
    with_managed_header,
};

fn named(remark: &str) -> Proxy {
    let mut p = Proxy::default();
    p.remark = remark.to_string();
    p.group = "G".to_string();
    p
}

#[test]
fn conversion_steps() {
    let all = merge_nodes(vec![named("a")], vec![named("i")], true).unwrap();
    assert_eq!(all.iter().map(|p| p.remark.as_str()).collect::<Vec<_>>(), vec!["i", "a"]);
    let all = merge_nodes(vec![named("a")], vec![named("i")], false).unwrap();
    assert_eq!(all.iter().map(|p| p.remark.as_str()).collect::<Vec<_>>(), vec!["a", "i"]);
    assert_eq!(merge_nodes(vec![], vec![], false).unwrap_err(), "No nodes were found!");

    let mut nodes = vec![named("a"), named("b")];
    apply_group_name(&mut nodes, &Some("New".to_string()));
    assert!(nodes.iter().all(|p| p.group == "New"));
    assert_eq!(nodes[1].remark, "b");
    apply_group_name(&mut nodes, &None);
    assert_eq!(nodes[0].group, "New");

    let ssr = link_types(&SubconverterTarget::SSR).unwrap();
    assert!(ssr.ss && ssr.ssr && !ssr.vmess && !ssr.trojan);
    assert!(link_types(&SubconverterTarget::Clash).is_none());

    let mut b = SubconverterConfigBuilder::new(&settings());
    b.target(SubconverterTarget::Surge(4))
        .add_url("u1")
        .add_url("u2")
        .managed_config_prefix("https://me/".to_string())
        .update_interval(600)
        .update_strict(true)
        .sub_info(Some("upload=1".to_string()))
        .filename(Some("my.conf".to_string()))
        .add_include_remark("HK")
        .authorized(true);
    let c = b.build().unwrap();
    assert_eq!(
        with_managed_header(&c, "BODY".to_string()),
        "#!MANAGED-CONFIG https://me/sub?target=surge&ver=4&url=u1|u2 interval=600 strict=true\n\nBODY"
    );
    assert_eq!(
        response_headers(&c),
        vec![
            ("Subscription-UserInfo".to_string(), "upload=1".to_string()),
            ("Content-Disposition".to_string(), "attachment; filename=\"my.conf\"; filename*=utf-8''".to_string())
        ]
    );
    assert_eq!(upload_target(&c), ("surge4".to_string(), "my.conf".to_string(), true));
    let opts = parse_options(&c);
    assert_eq!(opts.include_remarks, vec!["HK"]);
    assert!(opts.authorized);

    let mut b = SubconverterConfigBuilder::new(&settings());
    b.target(SubconverterTarget::Mellow).add_url("u").nodelist(true);
    let c = b.build().unwrap();
    assert_eq!(with_managed_header(&c, "B".to_string()), "B");
    assert_eq!(upload_target(&c), ("mellow".to_string(), "mellow".to_string(), false));
    assert!(response_headers(&c).is_empty());
}

#[test]
fn request_target_answers() {
    let missing = request_target(None).unwrap_err();
    assert_eq!((missing.content.as_str(), missing.status_code), ("Missing target parameter", 400));
    let invalid = request_target(Some("nope")).unwrap_err();
    assert_eq!((invalid.content.as_str(), invalid.status_code), ("Invalid target parameter", 400));
    let auto = request_target(Some("AUTO")).unwrap_err();
    assert_eq!(auto.content, "Auto user agent is not supported for now.");
    assert_eq!(auto.content_type, "text/plain");
    assert_eq!(request_target(Some("Clash")).unwrap(), SubconverterTarget::Clash);
}

use subconverter::api::request::request_config;

fn query(s: &str) -> Vec<(String, String)> {
    parse_query_string(s)
}

#[test]
fn request_config_refusals() {
    let g = settings();
    let e = request_config(&query("url=a"), &g, None).unwrap_err();
    assert_eq!((e.content.as_str(), e.status_code), ("Missing target parameter", 400));
    let e = request_config(&query("target=clash&url=a&exclude=(.*)*"), &g, None).unwrap_err();
    assert_eq!(e.content, "Invalid regex in request!");
    let e = request_config(&query("target=clash"), &g, None).unwrap_err();
    assert_eq!(e.content, "Configuration error: No URLs provided");
    let mut with_insert = settings();
    with_insert.enable_insert = true;
    with_insert.insert_urls = vec!["ins".to_string()];
    let c = request_config(&query("target=clash"), &with_insert, None).unwrap();
    assert_eq!(c.insert_urls, vec!["ins".to_string()]);
    assert!(c.urls.is_empty());
}

#[test]
fn request_config_precedence() {
    let mut g = settings();
    g.append_type = true;
    g.tfo_flag = Some(true);
    g.include_remarks = vec!["global".to_string()];
    g.exclude_remarks = vec!["gx".to_string()];
    g.add_emoji = true;
    g.managed_config_prefix = "http://me/".to_string();
    let mut ext = ExternalSettings::default();
    ext.include_remarks = vec!["ext".to_string()];
    ext.remove_old_emoji = Some(false);
    ext.enable_rule_generator = Some(false);
    let c = request_config(
        &query("target=surge&url=a|b&append_type=false&udp=on&emoji=0&include=HK&list=false"),
        &g,
        Some(&ext),
    )
    .unwrap();
    assert_eq!(c.target, SubconverterTarget::Surge(3));
    assert_eq!(c.urls, vec!["a".to_string(), "b".to_string()]);
    assert!(!c.extra.append_proxy_type);
    assert_eq!(c.extra.tfo, Some(true));
    assert_eq!(c.extra.udp, Some(true));
    assert_eq!(c.include_remarks, vec!["HK".to_string()]);
    assert_eq!(c.exclude_remarks, vec!["gx".to_string()]);
    assert!(!c.extra.add_emoji);
    assert!(c.extra.remove_emoji);
    assert!(!c.extra.enable_rule_generator);
    assert!(c.extra.clash_new_field_name);
    assert_eq!(c.managed_config_prefix, "");
    let c = request_config(&query("target=clash&url=a"), &g, Some(&ext)).unwrap();
    assert_eq!(c.include_remarks, vec!["ext".to_string()]);
    assert!(c.extra.add_emoji);
    assert!(!c.extra.remove_emoji);
    assert_eq!(c.managed_config_prefix, "http://me/");
    assert!(!c.extra.clash_script);
}

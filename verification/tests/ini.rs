use subconverter::generator::config::formats::loon::loon_config;
use subconverter::generator::config::formats::mellow::mellow_config;
use subconverter::generator::config::formats::surge::{surge_config, SurgeGroupLine, SurgeWireGuard};
use subconverter::utils::ini::{ini_text, parse_ini};

const BASE: &str = "#!comment\r\n[General]\r\nloglevel = notify\n\n[Proxy]\nold = http, a, 1\n[Rule]\nFINAL,DIRECT\n[Extra]\nx\n";

#[test]
fn ini_reads_and_writes_sections() {
    let ini = parse_ini(BASE);
    assert_eq!(ini.preamble, vec!["#!comment".to_string()]);
    let names: Vec<&str> = ini.sections.iter().map(|s| s.name.as_str()).collect();
    assert_eq!(names, vec!["General", "Proxy", "Rule", "Extra"]);
    assert_eq!(ini.get_section("Rule"), vec!["FINAL,DIRECT".to_string()]);
    assert_eq!(
        ini_text(&ini),
        "#!comment\n[General]\nloglevel = notify\n\n[Proxy]\nold = http, a, 1\n\n[Rule]\nFINAL,DIRECT\n\n[Extra]\nx\n"
    );
    let mut ini = ini;
    ini.set_section("New", vec!["a".to_string()]);
    ini.set_section("General", vec![]);
    assert!(ini_text(&ini).ends_with("[Extra]\nx\n\n[New]\na\n"));
    assert!(ini_text(&ini).starts_with("#!comment\n[General]\n\n[Proxy]"));
}

#[test]
fn surge_config_fills_the_base() {
    let wg = SurgeWireGuard {
        line: "unused".to_string(),
        section: "WireGuard abc".to_string(),
        settings: vec![("private-key".to_string(), "k".to_string())],
    };
    let out = surge_config(
        BASE,
        &vec!["N = socks5, s, 1080".to_string()],
        &vec![
            SurgeGroupLine::Group("G = select,N".to_string()),
            SurgeGroupLine::Proxy("D = direct".to_string()),
            SurgeGroupLine::Skip,
        ],
        &vec!["DOMAIN,a.com,G".to_string()],
        false,
        &vec![wg],
    );
    assert_eq!(
        out,
        "#!comment\n[General]\nloglevel = notify\n\n[Proxy]\nDIRECT = direct\nN = socks5, s, 1080\nD = direct\n\n[Rule]\nFINAL,DIRECT\nDOMAIN,a.com,G\n\n[Extra]\nx\n\n[Proxy Group]\nG = select,N\n\n[WireGuard abc]\nprivate-key = k\n"
    );
}

#[test]
fn loon_and_mellow_configs() {
    let out = loon_config(
        BASE,
        &vec!["N = http,h,1".to_string()],
        &vec!["G = select,N".to_string()],
        &vec!["DOMAIN,a,G".to_string()],
        &vec!["http://r, policy=G".to_string()],
        true,
    );
    assert!(out.contains("[Proxy]\nN = http,h,1\n"));
    assert!(out.contains("[Rule]\nDOMAIN,a,G\n"));
    assert!(out.ends_with("[Remote Rule]\nhttp://r, policy=G\n"));
    let base = "[Endpoint]\nDirect, builtin, freedom\n";
    let m = mellow_config(base, &vec!["N, ss".to_string()], &vec![], &vec!["FINAL, Proxy".to_string()], false);
    assert_eq!(m, "[Endpoint]\nDirect, builtin, freedom\nN, ss\n\n[EndpointGroup]\n\n[RoutingRule]\nFINAL, Proxy\n");
}

//! The settings of a conversion from the query of a subscription request,
//! the program's settings and an external configuration.
use super::sub::{bool_of_text, parse_bool_text, request_target, target_refusal, SubResponse};
use crate::interfaces::subconverter::{RuleBases, SubconverterConfig};
use crate::models::extra_settings::ExtraSettings;
use crate::models::subconverter_target::{is_clash_target, is_simple_target, target_of_name, SubconverterTarget};
use crate::settings::{ExternalSettings, Settings};
use crate::text::{
    chars_of, clone_strings, fold_lower, key_index, ov, pair_views, parse_i32, parse_i32_spec, split,
    split_char, std_lowercase, string_of, string_views, views,
};
use crate::utils::matcher::{regex_is_match, regex_search};
use vstd::prelude::*;

verus! {

/// The value of the parameter `k` of a query (its first occurrence).
pub open spec fn query_value(q: Seq<(Seq<char>, Seq<char>)>, k: Seq<char>) -> Option<Seq<char>> {
    if key_index(q, k) >= 0 {
        Some(q[key_index(q, k)].1)
    } else {
        None
    }
}

/// The boolean the parameter `k` of a query gives (see [`bool_of_text`]);
/// `None` where it is missing or means no boolean.
pub open spec fn query_flag(q: Seq<(Seq<char>, Seq<char>)>, k: Seq<char>) -> Option<bool> {
    match query_value(q, k) {
        Some(t) => bool_of_text(std_lowercase(t)),
        None => None,
    }
}

/// A boolean where given, else the default.
pub open spec fn flag_or(o: Option<bool>, d: bool) -> bool {
    match o {
        Some(b) => b,
        None => d,
    }
}

/// An option where given, else the default option.
pub open spec fn opt_or(o: Option<bool>, d: Option<bool>) -> Option<bool> {
    match o {
        Some(_) => o,
        None => d,
    }
}

/// The remark filter no request may give.
pub open spec fn blocked_filter(p: Option<Seq<char>>) -> bool {
    p == Some("(.*)*"@)
}

/// The subscriptions a request names: its `url` parameter split at `|`;
/// none without it.
pub open spec fn request_urls(q: Seq<(Seq<char>, Seq<char>)>) -> Seq<Seq<char>> {
    match query_value(q, "url"@) {
        Some(u) => split_char(u, '|'),
        None => Seq::empty(),
    }
}

/// Whether the nodes of the program's inserted subscriptions are added.
pub open spec fn inserts(q: Seq<(Seq<char>, Seq<char>)>, g: Settings) -> bool {
    flag_or(query_flag(q, "insert"@), g.enable_insert)
}

/// The status-400 message a request is answered with, checked in order: a
/// target that cannot be served (see [`target_refusal`]), a remark filter
/// that no request may give, and no subscription at all (neither named nor
/// inserted); `None` where the request is served.
pub open spec fn request_refusal(q: Seq<(Seq<char>, Seq<char>)>, g: Settings) -> Option<Seq<char>> {
    match target_refusal(query_value(q, "target"@)) {
        Some(m) => Some(m),
        None => if blocked_filter(query_value(q, "include"@)) || blocked_filter(query_value(q, "exclude"@)) {
            Some("Invalid regex in request!"@)
        } else if request_urls(q).len() == 0 && !(inserts(q, g) && g.insert_urls@.len() > 0) {
            Some("Configuration error: No URLs provided"@)
        } else {
            None
        },
    }
}

/// The remark filters of a conversion: the request's filter where it
/// compiles as a regular expression, else those of the external
/// configuration where it gives any, else the program's.
pub open spec fn remark_filters(
    requested: Option<Seq<char>>,
    external: Option<Seq<Seq<char>>>,
    global: Seq<Seq<char>>,
) -> Seq<Seq<char>> {
    match requested {
        Some(p) if regex_search(p, Seq::empty()) is Some => seq![p],
        _ => match external {
            Some(l) if l.len() > 0 => l,
            _ => global,
        },
    }
}

/// The external configuration's incl filters, where there is one.
pub open spec fn ext_includes(e: Option<ExternalSettings>) -> Option<Seq<Seq<char>>> {
    match e {
        Some(x) => Some(string_views(x.include_remarks@)),
        None => None,
    }
}

/// The external configuration's excl filters, where there is one.
pub open spec fn ext_excludes(e: Option<ExternalSettings>) -> Option<Seq<Seq<char>>> {
    match e {
        Some(x) => Some(string_views(x.exclude_remarks@)),
        None => None,
    }
}

/// An option of the external configuration, where there is one and it
/// says.
pub open spec fn ext_opt(e: Option<ExternalSettings>, pick: spec_fn(ExternalSettings) -> Option<bool>) -> Option<bool> {
    match e {
        Some(x) => pick(x),
        None => None,
    }
}

/// Whether emoji are added: the request's `add_emoji`, else its `emoji`,
/// else the external configuration, else the program's setting.
pub open spec fn adds_emoji(q: Seq<(Seq<char>, Seq<char>)>, g: Settings, e: Option<ExternalSettings>) -> bool {
    match query_flag(q, "add_emoji"@) {
        Some(b) => b,
        None => match query_flag(q, "emoji"@) {
            Some(b) => b,
            None => flag_or(ext_opt(e, |x: ExternalSettings| x.add_emoji), g.add_emoji),
        },
    }
}

/// Whether old emoji are removed: the request's `remove_emoji`, else yes
/// where it gives `emoji`, else the external configuration, else the
/// program's setting.
pub open spec fn removes_emoji(q: Seq<(Seq<char>, Seq<char>)>, g: Settings, e: Option<ExternalSettings>) -> bool {
    match query_flag(q, "remove_emoji"@) {
        Some(b) => b,
        None => if query_flag(q, "emoji"@) is Some {
            true
        } else {
            flag_or(ext_opt(e, |x: ExternalSettings| x.remove_old_emoji), g.remove_emoji)
        },
    }
}

/// The target a served request names.
pub open spec fn request_target_of(q: Seq<(Seq<char>, Seq<char>)>) -> SubconverterTarget {
    target_of_name(fold_lower(query_value(q, "target"@)->0))->0
}

/// Whether rulesets are expanded into the configuration: always for Clash
/// without a `script` parameter, else as the `expand` parameter says.
pub open spec fn expands(q: Seq<(Seq<char>, Seq<char>)>) -> bool {
    if is_clash_target(request_target_of(q)) && query_flag(q, "script"@) is None {
        true
    } else {
        query_flag(q, "expand"@) == Some(true)
    }
}

/// Seconds between updates: the request's `interval` where it is a number
/// that is not negative, else the program's setting.
pub open spec fn request_interval(q: Seq<(Seq<char>, Seq<char>)>, g: Settings) -> u32 {
    match query_value(q, "interval"@) {
        Some(t) => match parse_i32_spec(t) {
            Some(n) => if n >= 0 {
                n as u32
            } else {
                g.update_interval
            },
            None => g.update_interval,
        },
        None => g.update_interval,
    }
}

/// The filter script: the request's `filter`, else the program's; none
/// where that is empty.
pub open spec fn request_filter(q: Seq<(Seq<char>, Seq<char>)>, g: Settings) -> Option<Seq<char>> {
    let f = match query_value(q, "filter"@) {
        Some(t) => t,
        None => g.filter_script@,
    };
    if f.len() > 0 {
        Some(f)
    } else {
        None
    }
}

/// `x` holds the options of the served request with query `q` that go
/// into the extra settings of its conversion (see [`request_config_of`]).
pub open spec fn request_extra_of(
    x: ExtraSettings,
    q: Seq<(Seq<char>, Seq<char>)>,
    g: Settings,
    e: Option<ExternalSettings>,
) -> bool {
    let t = request_target_of(q);
    let nodelist = flag_or(query_flag(q, "list"@), false);
    let expand = expands(q);
    let ext_rules = e is Some && !nodelist && !is_simple_target(t);
    &&& x.append_proxy_type == flag_or(query_flag(q, "append_type"@), g.append_type)
    &&& x.tfo == opt_or(query_flag(q, "tfo"@), g.tfo_flag)
    &&& x.udp == opt_or(query_flag(q, "udp"@), g.udp_flag)
    &&& x.skip_cert_verify == opt_or(query_flag(q, "scv"@), g.skip_cert_verify)
    &&& x.tls13 == opt_or(query_flag(q, "tls13"@), g.tls13_flag)
    &&& x.sort_flag == flag_or(query_flag(q, "sort"@), g.enable_sort)
    &&& x.sort_script@ == (match query_value(q, "sort_script"@) {
        Some(s) => s,
        None => g.sort_script@,
    })
    &&& x.filter_deprecated == flag_or(query_flag(q, "fdn"@), g.filter_deprecated)
    &&& x.clash_new_field_name == (if expand {
        flag_or(query_flag(q, "new_name"@), g.clash_use_new_field)
    } else {
        true
    })
    &&& x.clash_script == (if expand {
        false
    } else {
        flag_or(query_flag(q, "script"@), false)
    })
    &&& x.clash_classical_ruleset == flag_or(query_flag(q, "classic"@), false)
    &&& x.nodelist == nodelist
    &&& x.add_emoji == adds_emoji(q, g, e)
    &&& x.remove_emoji == removes_emoji(q, g, e)
    &&& x.enable_rule_generator == (if ext_rules {
        flag_or(ext_opt(e, |x: ExternalSettings| x.enable_rule_generator), g.enable_rule_gen)
    } else {
        g.enable_rule_gen
    })
    &&& x.overwrite_original_rules == (if ext_rules {
        flag_or(ext_opt(e, |x: ExternalSettings| x.overwrite_original_rules), g.overwrite_original_rules)
    } else {
        g.overwrite_original_rules
    })
    &&& x.surge_ssr_path@ == g.surge_ssr_path@
    &&& !x.authorized
}

/// Two sets of rule bases name the same files.
pub open spec fn same_bases(a: RuleBases, b: RuleBases) -> bool {
    &&& a.clash_rule_base@ == b.clash_rule_base@
    &&& a.surge_rule_base@ == b.surge_rule_base@
    &&& a.surfboard_rule_base@ == b.surfboard_rule_base@
    &&& a.mellow_rule_base@ == b.mellow_rule_base@
    &&& a.quan_rule_base@ == b.quan_rule_base@
    &&& a.quanx_rule_base@ == b.quanx_rule_base@
    &&& a.loon_rule_base@ == b.loon_rule_base@
    &&& a.sssub_rule_base@ == b.sssub_rule_base@
    &&& a.singbox_rule_base@ == b.singbox_rule_base@
}

/// A copy of rule bases.
fn copy_bases(b: &RuleBases) -> (r: RuleBases)
    ensures
        same_bases(r, *b),
{
    RuleBases {
        clash_rule_base: b.clash_rule_base.clone(),
        surge_rule_base: b.surge_rule_base.clone(),
        surfboard_rule_base: b.surfboard_rule_base.clone(),
        mellow_rule_base: b.mellow_rule_base.clone(),
        quan_rule_base: b.quan_rule_base.clone(),
        quanx_rule_base: b.quanx_rule_base.clone(),
        loon_rule_base: b.loon_rule_base.clone(),
        sssub_rule_base: b.sssub_rule_base.clone(),
        singbox_rule_base: b.singbox_rule_base.clone(),
    }
}

/// `c` is the configuration of the served request with query `q`, under
/// the program's settings `g` and the external configuration `e`. Each
/// option is taken from the request first, then from the external
/// configuration, then from the program's settings; the rule bases are the
/// program's (those of an external configuration are checked against the
/// files by [`RuleBases::check_external_bases`]).
pub open spec fn request_config_of(
    c: SubconverterConfig,
    q: Seq<(Seq<char>, Seq<char>)>,
    g: Settings,
    e: Option<ExternalSettings>,
) -> bool {
    let t = request_target_of(q);
    let nodelist = flag_or(query_flag(q, "list"@), false);
    let expand = expands(q);
    let ext_rules = e is Some && !nodelist && !is_simple_target(t);
    &&& c.target == t
    &&& string_views(c.urls@) == request_urls(q)
    &&& string_views(c.insert_urls@) == (if inserts(q, g) {
        string_views(g.insert_urls@)
    } else {
        Seq::empty()
    })
    &&& c.prepend_insert == (inserts(q, g) && flag_or(query_flag(q, "prepend"@), g.prepend_insert))
    &&& ov(c.group_name) == query_value(q, "group"@)
    &&& ov(c.filename) == query_value(q, "filename"@)
    &&& c.upload == flag_or(query_flag(q, "upload"@), false)
    &&& c.update_strict == flag_or(query_flag(q, "strict"@), g.update_strict)
    &&& c.update_interval == request_interval(q, g)
    &&& ov(c.filter_script) == request_filter(q, g)
    &&& c.managed_config_prefix@ == (if expand {
        g.managed_config_prefix@
    } else {
        Seq::empty()
    })
    &&& string_views(c.include_remarks@) == remark_filters(
        query_value(q, "include"@),
        ext_includes(e),
        string_views(g.include_remarks@),
    )
    &&& string_views(c.exclude_remarks@) == remark_filters(
        query_value(q, "exclude"@),
        ext_excludes(e),
        string_views(g.exclude_remarks@),
    )
    &&& !c.authorized
    &&& same_bases(c.rule_bases, g.rule_bases)
    &&& c.ruleset_configs@.len() == 0 && c.proxy_groups@.len() == 0
    &&& request_extra_of(c.extra, q, g, e)
}

/// Where `j` holds the key, the first occurrence of the key in the first
/// `j + 1` pairs is its first occurrence in all.
proof fn lemma_key_index_prefix(q: Seq<(Seq<char>, Seq<char>)>, k: Seq<char>, j: int)
    requires
        0 <= j <= q.len(),
        key_index(q.take(j), k) >= 0,
    ensures
        key_index(q, k) == key_index(q.take(j), k),
    decreases q.len() - j,
{
    if j < q.len() {
        assert(q.take(j + 1).drop_last() =~= q.take(j));
        lemma_key_index_prefix(q, k, j + 1);
    } else {
        assert(q.take(j) =~= q);
    }
}

/// The value of a parameter of a query (see [`query_value`]).
pub fn query_get(q: &Vec<(String, String)>, key: &str) -> (r: Option<String>)
    ensures
        ov(r) == query_value(pair_views(q@), key@),
{
    let ghost qv = pair_views(q@);
    let kc = chars_of(key);
    let mut i: usize = 0;
    assert(qv.take(0) =~= Seq::<(Seq<char>, Seq<char>)>::empty());
    while i < q.len()
        invariant
            i <= q@.len(),
            qv == pair_views(q@),
            kc@ == key@,
            key_index(qv.take(i as int), key@) == -1,
        decreases q@.len() - i,
    {
        assert(qv.take(i + 1).drop_last() =~= qv.take(i as int));
        assert(qv.take(i + 1).last() == qv[i as int]);
        let c = chars_of(q[i].0.as_str());
        if crate::text::eq_str(c.as_slice(), key) {
            proof {
                lemma_key_index_prefix(qv, key@, i + 1);
            }
            return Some(q[i].1.clone());
        }
        i = i + 1;
    }
    assert(qv.take(i as int) =~= qv);
    None
}

/// The boolean a parameter of a query gives (see [`query_flag`]).
pub fn query_bool(q: &Vec<(String, String)>, key: &str) -> (r: Option<bool>)
    ensures
        r == query_flag(pair_views(q@), key@),
{
    match query_get(q, key) {
        Some(t) => parse_bool_text(t.as_str()),
        None => None,
    }
}

fn or_bool(o: Option<bool>, d: bool) -> (r: bool)
    ensures
        r == flag_or(o, d),
{
    match o {
        Some(b) => b,
        None => d,
    }
}

fn or_opt(o: Option<bool>, d: Option<bool>) -> (r: Option<bool>)
    ensures
        r == opt_or(o, d),
{
    match o {
        Some(_) => o,
        None => d,
    }
}

/// The remark filters of a conversion (see [`remark_filters`]).
fn remark_filters_exec(requested: Option<String>, external: Option<&Vec<String>>, global: &Vec<String>) -> (r: Vec<
    String,
>)
    ensures
        string_views(r@) == remark_filters(
            ov(requested),
            match external {
                Some(l) => Some(string_views(l@)),
                None => None,
            },
            string_views(global@),
        ),
{
    proof {
        reveal_strlit("");
    }
    assert(""@ =~= Seq::<char>::empty());
    let valid = match &requested {
        Some(p) => regex_is_match(p.as_str(), "").is_some(),
        None => false,
    };
    if valid {
        let p = match requested {
            Some(p) => p,
            None => String::new(),
        };
        let v = vec![p];
        assert(string_views(v@) =~= seq![p@]);
        return v;
    }
    match external {
        Some(l) => {
            if l.len() > 0 {
                let r = clone_strings(l);
                assert(string_views(r@) == string_views(l@));
                return r;
            }
        },
        None => {},
    }
    clone_strings(global)
}

/// The subscriptions a request names (see [`request_urls`]).
fn request_urls_exec(q: &Vec<(String, String)>) -> (r: Vec<String>)
    ensures
        string_views(r@) == request_urls(pair_views(q@)),
{
    match query_get(q, "url") {
        Some(u) => {
            let c = chars_of(u.as_str());
            let parts = split(c.as_slice(), '|');
            let ghost pv = views(parts@);
            let mut out: Vec<String> = Vec::new();
            let mut i: usize = 0;
            while i < parts.len()
                invariant
                    i <= parts@.len(),
                    pv == views(parts@),
                    string_views(out@) == pv.take(i as int),
                decreases parts@.len() - i,
            {
                let ghost before = string_views(out@);
                let piece = string_of(parts[i].as_slice());
                out.push(piece);
                assert(pv[i as int] == parts@[i as int]@);
                assert(string_views(out@) =~= before.push(piece@));
                assert(pv.take(i + 1) =~= pv.take(i as int).push(pv[i as int]));
                i = i + 1;
            }
            assert(pv.take(i as int) =~= pv);
            out
        },
        None => {
            let out: Vec<String> = Vec::new();
            assert(string_views(out@) =~= Seq::<Seq<char>>::empty());
            out
        },
    }
}

/// The extra settings of the conversion of a served request (see
/// [`request_extra_of`]); `target`, `expand`, `nodelist` and `script` are
/// what the request gives for them.
#[verifier::rlimit(50)]
fn request_extra(
    query: &Vec<(String, String)>,
    global: &Settings,
    external: Option<&ExternalSettings>,
    target: SubconverterTarget,
    expand: bool,
    nodelist: bool,
    script: Option<bool>,
) -> (extra: ExtraSettings)
    requires
        request_target_of(pair_views(query@)) == target,
        expand == expands(pair_views(query@)),
        nodelist == flag_or(query_flag(pair_views(query@), "list"@), false),
        script == query_flag(pair_views(query@), "script"@),
    ensures
        request_extra_of(
            extra,
            pair_views(query@),
            *global,
            match external {
                Some(x) => Some(*x),
                None => None,
            },
        ),
{
    let mut extra = ExtraSettings::from_settings(global);
    extra.append_proxy_type = or_bool(query_bool(query, "append_type"), global.append_type);
    extra.tfo = or_opt(query_bool(query, "tfo"), global.tfo_flag);
    extra.udp = or_opt(query_bool(query, "udp"), global.udp_flag);
    extra.skip_cert_verify = or_opt(query_bool(query, "scv"), global.skip_cert_verify);
    extra.tls13 = or_opt(query_bool(query, "tls13"), global.tls13_flag);
    extra.sort_flag = or_bool(query_bool(query, "sort"), global.enable_sort);
    extra.sort_script = match query_get(query, "sort_script") {
        Some(s) => s,
        None => global.sort_script.clone(),
    };
    extra.filter_deprecated = or_bool(query_bool(query, "fdn"), global.filter_deprecated);
    extra.clash_new_field_name = if expand {
        or_bool(query_bool(query, "new_name"), global.clash_use_new_field)
    } else {
        true
    };
    extra.clash_script = if expand {
        false
    } else {
        or_bool(script, false)
    };
    extra.clash_classical_ruleset = or_bool(query_bool(query, "classic"), false);
    extra.nodelist = nodelist;
    let emoji = query_bool(query, "emoji");
    let ext_add = match external {
        Some(x) => x.add_emoji,
        None => None,
    };
    let ext_remove = match external {
        Some(x) => x.remove_old_emoji,
        None => None,
    };
    extra.add_emoji = match query_bool(query, "add_emoji") {
        Some(b) => b,
        None => match emoji {
            Some(b) => b,
            None => or_bool(ext_add, global.add_emoji),
        },
    };
    extra.remove_emoji = match query_bool(query, "remove_emoji") {
        Some(b) => b,
        None => if emoji.is_some() {
            true
        } else {
            or_bool(ext_remove, global.remove_emoji)
        },
    };
    let ext_rules = external.is_some() && !nodelist && !target.is_simple();
    if ext_rules {
        let (gen, over) = match external {
            Some(x) => (x.enable_rule_generator, x.overwrite_original_rules),
            None => (None, None),
        };
        extra.enable_rule_generator = or_bool(gen, global.enable_rule_gen);
        extra.overwrite_original_rules = or_bool(over, global.overwrite_original_rules);
    }
    extra
}

/// The configuration of a conversion from the query of a subscription
/// request (its parameters, as [`super::sub::parse_query_string`] gives
/// them), the program's settings `global` and the external configuration
/// `external` where one was loaded: the status-400 answer of a request that
/// is refused (see [`request_refusal`]), else the configuration that
/// [`request_config_of`] describes.
pub fn request_config(
    query: &Vec<(String, String)>,
    global: &Settings,
    external: Option<&ExternalSettings>,
) -> (r: Result<SubconverterConfig, SubResponse>)
    ensures
        match request_refusal(pair_views(query@), *global) {
            Some(m) => r matches Err(e) && e.content@ == m && e.status_code == 400,
            None => r matches Ok(c) && request_config_of(
                c,
                pair_views(query@),
                *global,
                match external {
                    Some(x) => Some(*x),
                    None => None,
                },
            ),
        },
{
    let ghost qv = pair_views(query@);
    let ghost ev: Option<ExternalSettings> = match external {
        Some(x) => Some(*x),
        None => None,
    };
    let target_text = query_get(query, "target");
    let target_ref: Option<&str> = match &target_text {
        Some(t) => Some(t.as_str()),
        None => None,
    };
    let target = match request_target(target_ref) {
        Ok(t) => t,
        Err(e) => {
            return Err(e);
        },
    };
    let incl = query_get(query, "include");
    let excl = query_get(query, "exclude");
    let blocked_in = match &incl {
        Some(p) => crate::text::eq_str(chars_of(p.as_str()).as_slice(), "(.*)*"),
        None => false,
    };
    let blocked_ex = match &excl {
        Some(p) => crate::text::eq_str(chars_of(p.as_str()).as_slice(), "(.*)*"),
        None => false,
    };
    if blocked_in || blocked_ex {
        return Err(SubResponse::error("Invalid regex in request!".to_owned(), 400));
    }
    let insert = or_bool(query_bool(query, "insert"), global.enable_insert);
    let urls = request_urls_exec(query);
    let insert_urls: Vec<String> = if insert {
        clone_strings(&global.insert_urls)
    } else {
        Vec::new()
    };
    assert(string_views(insert_urls@) =~= (if insert {
        string_views(global.insert_urls@)
    } else {
        Seq::empty()
    }));
    if urls.len() == 0 && insert_urls.len() == 0 {
        return Err(SubResponse::error("Configuration error: No URLs provided".to_owned(), 400));
    }
    let prepend = insert && or_bool(query_bool(query, "prepend"), global.prepend_insert);
    let nodelist = or_bool(query_bool(query, "list"), false);
    let script = query_bool(query, "script");
    let expand = if target.is_clash() && script.is_none() {
        true
    } else {
        query_bool(query, "expand") == Some(true)
    };
    let extra = request_extra(query, global, external, target, expand, nodelist, script);
    let include_remarks = remark_filters_exec(
        incl,
        match external {
            Some(x) => Some(&x.include_remarks),
            None => None,
        },
        &global.include_remarks,
    );
    let exclude_remarks = remark_filters_exec(
        excl,
        match external {
            Some(x) => Some(&x.exclude_remarks),
            None => None,
        },
        &global.exclude_remarks,
    );
    let interval = match query_get(query, "interval") {
        Some(t) => match parse_i32(chars_of(t.as_str()).as_slice()) {
            Some(n) => if n >= 0 {
                n as u32
            } else {
                global.update_interval
            },
            None => global.update_interval,
        },
        None => global.update_interval,
    };
    let filter = match query_get(query, "filter") {
        Some(t) => t,
        None => global.filter_script.clone(),
    };
    let filter_script = if filter.as_str().is_empty() {
        None
    } else {
        Some(filter)
    };
    let config = SubconverterConfig {
        target,
        urls,
        insert_urls,
        prepend_insert: prepend,
        group_name: query_get(query, "group"),
        ruleset_configs: Vec::new(),
        proxy_groups: Vec::new(),
        include_remarks,
        exclude_remarks,
        extra,
        device_id: None,
        filename: query_get(query, "filename"),
        update_interval: interval,
        filter_script,
        update_strict: or_bool(query_bool(query, "strict"), global.update_strict),
        managed_config_prefix: if expand {
            global.managed_config_prefix.clone()
        } else {
            String::new()
        },
        upload_path: None,
        upload: or_bool(query_bool(query, "upload"), false),
        proxy: None,
        token: None,
        authorized: false,
        sub_info: None,
        rule_bases: copy_bases(&global.rule_bases),
        request_headers: None,
    };
    Ok(config)
}

} // verus!

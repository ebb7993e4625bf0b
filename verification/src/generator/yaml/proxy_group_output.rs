//! Proxy groups as a Clash configuration lists them.
use crate::models::proxy_group_config::{
    clash_type_name, field, field_views, option_fields, option_fields_of, strategy_name,
    FieldValue, FieldView, ProxyGroupConfig, ProxyGroupType,
};
use crate::text::{clone_strings, string_views};
use vstd::prelude::*;

verus! {

/// A proxy group of a Clash configuration.
#[derive(Debug)]
pub struct ClashProxyGroup {
    /// Name of the group.
    pub name: String,
    /// Kind of the group (`select`, `url-test`, `fallback`, `load-balance`, ...).
    pub group_type: String,
    /// Names of the nodes in the group.
    pub proxies: Vec<String>,
    /// Names of the providers the group uses.
    pub using_provider: Vec<String>,
    /// URL for latency tests; empty where the kind tests nothing.
    pub url: String,
    /// Seconds between tests; 0 where unset.
    pub interval: u32,
    /// Test timeout in seconds; 0 where unset.
    pub timeout: u32,
    /// Latency tolerance; 0 where unset.
    pub tolerance: u32,
    /// Load-balancing strategy; empty but for load balancing.
    pub strategy: String,
    /// Lazy testing; written out only when false.
    pub lazy: bool,
    /// UDP disabled.
    pub disable_udp: bool,
    /// Persistent connections.
    pub persistent: bool,
    /// Evaluate before use.
    pub evaluate_before_use: bool,
}

/// Whether a value equals zero (such a value is left out of the output).
pub fn is_zero_u32(val: &u32) -> (r: bool)
    ensures
        r == (*val == 0),
{
    *val == 0
}

/// Whether a flag is set (a lazy flag that is set is left out of the output).
pub fn is_true(val: &bool) -> (r: bool)
    ensures
        r == *val,
{
    *val
}

/// Whether a flag is clear (such a flag is left out of the output).
pub fn is_false(val: &bool) -> (r: bool)
    ensures
        r == !*val,
{
    !*val
}

/// The names of a group's nodes as written: `DIRECT` alone where the group
/// has neither nodes nor providers.
pub open spec fn names_or_direct(names: Seq<Seq<char>>, n_providers: nat) -> Seq<Seq<char>> {
    if names.len() == 0 && n_providers == 0 {
        seq!["DIRECT"@]
    } else {
        names
    }
}

/// Whether a group of kind `t` tests latency (and so has a URL, an
/// interval and a tolerance).
pub open spec fn tests_latency(t: ProxyGroupType) -> bool {
    ||| t == ProxyGroupType::URLTest
    ||| t == ProxyGroupType::Smart
    ||| t == ProxyGroupType::Fallback
    ||| t == ProxyGroupType::LoadBalance
}

/// Whether a group of kind `t` carries its lazy flag.
pub open spec fn keeps_lazy(t: ProxyGroupType) -> bool {
    ||| t == ProxyGroupType::URLTest
    ||| t == ProxyGroupType::Smart
    ||| t == ProxyGroupType::LoadBalance
}

/// The first list of node names that `m` holds for the group `name`.
pub open spec fn nodes_for(m: Seq<(String, Vec<String>)>, name: Seq<char>) -> Option<Seq<String>>
    decreases m.len(),
{
    if m.len() == 0 {
        None
    } else if m[0].0@ == name {
        Some(m[0].1@)
    } else {
        nodes_for(m.drop_first(), name)
    }
}

impl ClashProxyGroup {
    /// `r` is the Clash group for `c` (see [`Self::from_config`]), its nodes
    /// taken from `names` before `DIRECT` fills an empty group.
    pub open spec fn made_from(r: Self, c: ProxyGroupConfig, names: Seq<String>) -> bool {
        let t = c.group_type;
        &&& r.name == c.name
        &&& r.group_type@ == clash_type_name(t)
        &&& string_views(r.proxies@) == names_or_direct(
            string_views(names),
            c.using_provider@.len(),
        )
        &&& r.using_provider@ == c.using_provider@
        &&& r.url@ == (if tests_latency(t) {
            c.url@
        } else {
            Seq::<char>::empty()
        })
        &&& r.interval == (if tests_latency(t) {
            c.interval
        } else {
            0
        })
        &&& r.timeout == 0
        &&& r.tolerance == (if tests_latency(t) {
            c.tolerance
        } else {
            0
        })
        &&& r.strategy@ == (if t == ProxyGroupType::LoadBalance {
            strategy_name(c.strategy)
        } else {
            Seq::<char>::empty()
        })
        &&& r.lazy == (if keeps_lazy(t) {
            c.lazy
        } else {
            true
        })
        &&& r.disable_udp == c.disable_udp
        &&& r.persistent == c.persistent
        &&& r.evaluate_before_use == c.evaluate_before_use
    }

    /// The Clash group for a group configuration: a smart group becomes a
    /// `url-test` one; only latency-testing kinds keep URL, interval and
    /// tolerance, only load balancing its strategy; and a group with neither
    /// nodes nor providers gets `DIRECT` as its one node.
    pub fn from_config(config: &ProxyGroupConfig) -> (r: Self)
        ensures
            Self::made_from(r, *config, config.proxies@),
    {
        let type_str = if config.group_type == ProxyGroupType::Smart {
            "url-test".to_owned()
        } else {
            config.type_str().to_owned()
        };
        let mut g = ClashProxyGroup {
            name: config.name.clone(),
            group_type: type_str,
            proxies: clone_strings(&config.proxies),
            using_provider: clone_strings(&config.using_provider),
            url: String::new(),
            interval: 0,
            timeout: 0,
            tolerance: 0,
            strategy: String::new(),
            lazy: true,
            disable_udp: config.disable_udp,
            persistent: config.persistent,
            evaluate_before_use: config.evaluate_before_use,
        };
        match config.group_type {
            ProxyGroupType::LoadBalance => {
                g.strategy = config.strategy_str().to_owned();
                g.lazy = config.lazy;
                g.url = config.url.clone();
                g.interval = config.interval;
                g.tolerance = config.tolerance;
            },
            ProxyGroupType::URLTest | ProxyGroupType::Smart | ProxyGroupType::Fallback => {
                g.url = config.url.clone();
                g.interval = config.interval;
                g.tolerance = config.tolerance;
                if config.group_type != ProxyGroupType::Fallback {
                    g.lazy = config.lazy;
                }
            },
            _ => {},
        }
        g.fill_direct();
        g
    }

    /// Puts `DIRECT` in a group that has neither nodes nor providers.
    fn fill_direct(&mut self)
        ensures
            string_views(final(self).proxies@) == names_or_direct(
                string_views(old(self).proxies@),
                old(self).using_provider@.len(),
            ),
            *final(self) == (ClashProxyGroup { proxies: final(self).proxies, ..*old(self) }),
    {
        if self.proxies.len() == 0 && self.using_provider.len() == 0 {
            self.proxies = vec!["DIRECT".to_owned()];
            assert(string_views(self.proxies@) =~= seq!["DIRECT"@]);
        }
    }
}

/// The node names that `m` gives the group `name`, if it names the group.
fn lookup_nodes(m: &Vec<(String, Vec<String>)>, name: &String) -> (r: Option<Vec<String>>)
    ensures
        match r {
            Some(v) => nodes_for(m@, name@) == Some(v@),
            None => nodes_for(m@, name@) is None,
        },
{
    let mut i: usize = 0;
    assert(m@.skip(0) =~= m@);
    while i < m.len()
        invariant
            i <= m@.len(),
            nodes_for(m@, name@) == nodes_for(m@.skip(i as int), name@),
        decreases m@.len() - i,
    {
        assert(m@.skip(i as int).drop_first() =~= m@.skip(i + 1));
        if m[i].0 == *name {
            return Some(clone_strings(&m[i].1));
        }
        i += 1;
    }
    None
}

/// The node names of the group `c`: those that `filtered` holds for its
/// name, else its own.
pub open spec fn group_nodes(c: ProxyGroupConfig, filtered: Option<Seq<(String, Vec<String>)>>) -> Seq<String> {
    match filtered {
        Some(m) => match nodes_for(m, c.name@) {
            Some(names) => names,
            None => c.proxies@,
        },
        None => c.proxies@,
    }
}

/// `r` is the list of Clash groups for `configs`, with the node lists of
/// `filtered` (see [`convert_proxy_groups`]).
pub open spec fn groups_made_from(
    r: Seq<ClashProxyGroup>,
    configs: Seq<ProxyGroupConfig>,
    filtered: Option<Seq<(String, Vec<String>)>>,
) -> bool {
    &&& r.len() == configs.len()
    &&& forall|i: int|
        0 <= i < r.len() ==> #[trigger] ClashProxyGroup::made_from(
            r[i],
            configs[i],
            group_nodes(configs[i], filtered),
        )
}

/// The Clash groups for a list of group configurations, in order. Where
/// `filtered_nodes_map` holds a list of node names for a group's name, that
/// list takes the place of the group's own nodes.
pub fn convert_proxy_groups(
    group_configs: &[ProxyGroupConfig],
    filtered_nodes_map: Option<&Vec<(String, Vec<String>)>>,
) -> (r: Vec<ClashProxyGroup>)
    ensures
        groups_made_from(
            r@,
            group_configs@,
            match filtered_nodes_map {
                Some(m) => Some(m@),
                None => None,
            },
        ),
{
    let ghost filtered = match filtered_nodes_map {
        Some(m) => Some(m@),
        None => None,
    };
    let mut groups: Vec<ClashProxyGroup> = Vec::new();
    let mut i: usize = 0;
    while i < group_configs.len()
        invariant
            i <= group_configs@.len(),
            filtered == match filtered_nodes_map {
                Some(m) => Some(m@),
                None => None,
            },
            groups_made_from(groups@, group_configs@.take(i as int), filtered),
        decreases group_configs@.len() - i,
    {
        let config = &group_configs[i];
        let mut g = ClashProxyGroup::from_config(config);
        let ghost names = config.proxies@;
        if let Some(m) = filtered_nodes_map {
            if let Some(nodes) = lookup_nodes(m, &config.name) {
                g.proxies = nodes;
                g.fill_direct();
                proof {
                    names = nodes@;
                }
            }
        }
        assert(ClashProxyGroup::made_from(g, *config, names));
        groups.push(g);
        proof {
            let c = group_configs@.take(i + 1);
            assert forall|j: int| 0 <= j < groups@.len() implies #[trigger] ClashProxyGroup::made_from(
                groups@[j],
                c[j],
                group_nodes(c[j], filtered),
            ) by {
                if j < i {
                    assert(c[j] == group_configs@.take(i as int)[j]);
                }
            }
        }
        i += 1;
    }
    assert(group_configs@.take(group_configs@.len() as int) =~= group_configs@);
    groups
}

/// An example: a manual `Proxy` selection of three nodes, an `Auto` group
/// that picks the faster of two by a latency test every 300 seconds, and a
/// `Fallback` group over the three nodes with the same test; only the
/// `Auto` group is not lazy.
pub fn example_clash_groups() -> (r: Vec<ClashProxyGroup>)
    ensures
        r@.len() == 3,
        r@[0].name@ == "Proxy"@,
        r@[0].group_type@ == "select"@,
        string_views(r@[0].proxies@) == seq!["Hong Kong"@, "Singapore"@, "US"@],
        r@[0].lazy,
        r@[1].name@ == "Auto"@,
        r@[1].group_type@ == "url-test"@,
        r@[1].url@ == "http://www.gstatic.com/generate_204"@,
        r@[1].interval == 300,
        string_views(r@[1].proxies@) == seq!["Hong Kong"@, "Singapore"@],
        !r@[1].lazy,
        r@[2].name@ == "Fallback"@,
        r@[2].group_type@ == "fallback"@,
        r@[2].url@ == "http://www.gstatic.com/generate_204"@,
        r@[2].interval == 300,
        string_views(r@[2].proxies@) == seq!["Hong Kong"@, "Singapore"@, "US"@],
        r@[2].lazy,
{
    let mut groups: Vec<ProxyGroupConfig> = Vec::new();
    let mut select_group = ProxyGroupConfig::new("Proxy".to_owned(), ProxyGroupType::Select);
    select_group.proxies = vec!["Hong Kong".to_owned(), "Singapore".to_owned(), "US".to_owned()];
    groups.push(select_group);
    let mut urltest_group = ProxyGroupConfig::new("Auto".to_owned(), ProxyGroupType::URLTest);
    urltest_group.url = "http://www.gstatic.com/generate_204".to_owned();
    urltest_group.interval = 300;
    urltest_group.proxies = vec!["Hong Kong".to_owned(), "Singapore".to_owned()];
    groups.push(urltest_group);
    let mut fallback_group = ProxyGroupConfig::new("Fallback".to_owned(), ProxyGroupType::Fallback);
    fallback_group.url = "http://www.gstatic.com/generate_204".to_owned();
    fallback_group.interval = 300;
    fallback_group.proxies = vec!["Hong Kong".to_owned(), "Singapore".to_owned(), "US".to_owned()];
    groups.push(fallback_group);
    let r = convert_proxy_groups(groups.as_slice(), None);
    proof {
        assert(ClashProxyGroup::made_from(r@[0], groups@[0], group_nodes(groups@[0], None)));
        assert(ClashProxyGroup::made_from(r@[1], groups@[1], group_nodes(groups@[1], None)));
        assert(ClashProxyGroup::made_from(r@[2], groups@[2], group_nodes(groups@[2], None)));
        reveal_strlit("select");
        reveal_strlit("url-test");
        reveal_strlit("fallback");
        assert(string_views(groups@[0].proxies@) =~= seq!["Hong Kong"@, "Singapore"@, "US"@]);
        assert(string_views(groups@[1].proxies@) =~= seq!["Hong Kong"@, "Singapore"@]);
        assert(string_views(groups@[2].proxies@) =~= seq!["Hong Kong"@, "Singapore"@, "US"@]);
    }
    r
}

/// Every group that [`convert_proxy_groups`] gives has at least one node or
/// one provider: an empty group is never written out.
pub proof fn law_converted_groups_not_empty(
    r: Seq<ClashProxyGroup>,
    configs: Seq<ProxyGroupConfig>,
    filtered: Option<Seq<(String, Vec<String>)>>,
    i: int,
)
    requires
        groups_made_from(r, configs, filtered),
        0 <= i < r.len(),
    ensures
        r[i].proxies@.len() > 0 || r[i].using_provider@.len() > 0,
{
    assert(ClashProxyGroup::made_from(r[i], configs[i], group_nodes(configs[i], filtered)));
    assert(string_views(r[i].proxies@).len() == r[i].proxies@.len());
}

/// The members of a group as Clash lists them: its providers under `use`
/// where it has any, else its nodes, else `DIRECT` alone.
pub open spec fn member_fields(c: ProxyGroupConfig, proxies: Seq<String>) -> Seq<(Seq<char>, FieldView)> {
    if c.using_provider@.len() > 0 {
        field("use"@, FieldView::List(string_views(c.using_provider@)))
    } else if proxies.len() > 0 {
        field("proxies"@, FieldView::List(string_views(proxies)))
    } else {
        field("proxies"@, FieldView::List(seq!["DIRECT"@]))
    }
}

/// The fields of a group in a Clash configuration, in order, with the node
/// names `proxies` chosen for it: the group's options (see
/// [`option_fields`]) and then its members (see [`member_fields`]).
pub fn proxy_group_fields(group: &ProxyGroupConfig, proxies: &[String]) -> (r: Vec<(String, FieldValue)>)
    ensures
        field_views(r@) == option_fields(*group) + member_fields(*group, proxies@),
{
    let mut v = option_fields_of(group);
    let (key, names) = if group.using_provider.len() > 0 {
        ("use", clone_strings(&group.using_provider))
    } else if proxies.len() > 0 {
        let mut names: Vec<String> = Vec::new();
        let mut i: usize = 0;
        while i < proxies.len()
            invariant
                i <= proxies@.len(),
                names@ == proxies@.take(i as int),
            decreases proxies@.len() - i,
        {
            names.push(proxies[i].clone());
            i = i + 1;
            assert(names@ =~= proxies@.take(i as int));
        }
        assert(proxies@.take(proxies@.len() as int) =~= proxies@);
        ("proxies", names)
    } else {
        let direct = vec!["DIRECT".to_owned()];
        assert(string_views(direct@) =~= seq!["DIRECT"@]);
        ("proxies", direct)
    };
    let ghost before = field_views(v@);
    v.push((key.to_owned(), FieldValue::List(names)));
    assert(field_views(v@) =~= before + member_fields(*group, proxies@));
    v
}

} // verus!

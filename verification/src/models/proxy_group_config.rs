//! Proxy groups: named selections of nodes and how a client picks among them.
use crate::text::{clone_strings, string_views};
use vstd::prelude::*;

verus! {

/// Kind of a proxy group.
#[derive(Debug, Clone, Copy, PartialEq, Eq, Structural)]
pub enum ProxyGroupType {
    Select,
    URLTest,
    Fallback,
    LoadBalance,
    Relay,
    SSID,
    Smart,
}

/// Name of a group kind in client configurations.
pub open spec fn group_type_name(t: ProxyGroupType) -> Seq<char> {
    match t {
        ProxyGroupType::Select => "select"@,
        ProxyGroupType::URLTest => "url-test"@,
        ProxyGroupType::LoadBalance => "load-balance"@,
        ProxyGroupType::Fallback => "fallback"@,
        ProxyGroupType::Relay => "relay"@,
        ProxyGroupType::SSID => "ssid"@,
        ProxyGroupType::Smart => "smart"@,
    }
}

impl ProxyGroupType {
    /// Name of the group kind.
    pub fn as_str(&self) -> (r: &'static str)
        ensures
            r@ == group_type_name(*self),
    {
        match self {
            ProxyGroupType::Select => "select",
            ProxyGroupType::URLTest => "url-test",
            ProxyGroupType::LoadBalance => "load-balance",
            ProxyGroupType::Fallback => "fallback",
            ProxyGroupType::Relay => "relay",
            ProxyGroupType::SSID => "ssid",
            ProxyGroupType::Smart => "smart",
        }
    }
}

/// Load-balancing strategy.
#[derive(Debug, Clone, Copy, PartialEq, Eq, Structural)]
pub enum BalanceStrategy {
    ConsistentHashing,
    RoundRobin,
}

/// Name of a strategy in client configurations.
pub open spec fn strategy_name(s: BalanceStrategy) -> Seq<char> {
    match s {
        BalanceStrategy::ConsistentHashing => "consistent-hashing"@,
        BalanceStrategy::RoundRobin => "round-robin"@,
    }
}

impl BalanceStrategy {
    /// Name of the strategy.
    pub fn as_str(&self) -> (r: &'static str)
        ensures
            r@ == strategy_name(*self),
    {
        match self {
            BalanceStrategy::ConsistentHashing => "consistent-hashing",
            BalanceStrategy::RoundRobin => "round-robin",
        }
    }
}

/// Configuration of a proxy group.
#[derive(Debug, Clone)]
pub struct ProxyGroupConfig {
    /// Name of the group.
    pub name: String,
    /// Kind of the group.
    pub group_type: ProxyGroupType,
    /// Names of the nodes in the group.
    pub proxies: Vec<String>,
    /// Names of the providers the group uses.
    pub using_provider: Vec<String>,
    /// URL for latency tests.
    pub url: String,
    /// Seconds between tests.
    pub interval: u32,
    /// Test timeout in seconds.
    pub timeout: u32,
    /// Latency tolerance.
    pub tolerance: u32,
    /// Load-balancing strategy.
    pub strategy: BalanceStrategy,
    /// Lazy testing.
    pub lazy: bool,
    /// UDP disabled.
    pub disable_udp: bool,
    /// Persistent connections.
    pub persistent: bool,
    /// Evaluate before use.
    pub evaluate_before_use: bool,
}

/// Every field of `c` but the name and kind holds its default.
pub open spec fn group_settings_default(c: &ProxyGroupConfig) -> bool {
    &&& c.proxies@.len() == 0
    &&& c.using_provider@.len() == 0
    &&& c.url@ == Seq::<char>::empty()
    &&& c.interval == 0
    &&& c.timeout == 0
    &&& c.tolerance == 0
    &&& c.strategy == BalanceStrategy::ConsistentHashing
    &&& !c.lazy
    &&& !c.disable_udp
    &&& !c.persistent
    &&& !c.evaluate_before_use
}

impl Default for ProxyGroupConfig {
    fn default() -> (r: Self)
        ensures
            r.name@ == Seq::<char>::empty(),
            r.group_type == ProxyGroupType::Select,
            group_settings_default(&r),
    {
        ProxyGroupConfig {
            name: String::new(),
            group_type: ProxyGroupType::Select,
            proxies: Vec::new(),
            using_provider: Vec::new(),
            url: String::new(),
            interval: 0,
            timeout: 0,
            tolerance: 0,
            strategy: BalanceStrategy::ConsistentHashing,
            lazy: false,
            disable_udp: false,
            persistent: false,
            evaluate_before_use: false,
        }
    }
}

impl ProxyGroupConfig {
    /// A group of the given name and kind, all else default.
    pub fn new(name: String, group_type: ProxyGroupType) -> (r: Self)
        ensures
            r.name == name,
            r.group_type == group_type,
            group_settings_default(&r),
    {
        let mut c = Self::default();
        c.name = name;
        c.group_type = group_type;
        c
    }

    /// Name of the group's kind.
    pub fn type_str(&self) -> (r: &'static str)
        ensures
            r@ == group_type_name(self.group_type),
    {
        self.group_type.as_str()
    }

    /// Name of the group's strategy.
    pub fn strategy_str(&self) -> (r: &'static str)
        ensures
            r@ == strategy_name(self.strategy),
    {
        self.strategy.as_str()
    }
}

/// A value written under a key when a group is serialized.
#[derive(Debug, Clone)]
pub enum FieldValue {
    Text(String),
    Flag(bool),
    Number(u32),
    List(Vec<String>),
}

/// The mathematical form of a [`FieldValue`].
pub enum FieldView {
    Text(Seq<char>),
    Flag(bool),
    Number(nat),
    List(Seq<Seq<char>>),
}

impl View for FieldValue {
    type V = FieldView;

    open spec fn view(&self) -> FieldView {
        match self {
            FieldValue::Text(s) => FieldView::Text(s@),
            FieldValue::Flag(b) => FieldView::Flag(*b),
            FieldValue::Number(n) => FieldView::Number(*n as nat),
            FieldValue::List(v) => FieldView::List(string_views(v@)),
        }
    }
}

/// The keys and values of a list of serialized fields.
pub open spec fn field_views(v: Seq<(String, FieldValue)>) -> Seq<(Seq<char>, FieldView)> {
    v.map_values(|e: (String, FieldValue)| (e.0@, e.1@))
}

/// One field, as a list.
pub open spec fn field(key: Seq<char>, value: FieldView) -> Seq<(Seq<char>, FieldView)> {
    seq![(key, value)]
}

/// One field where `present` holds, else nothing.
pub open spec fn field_if(present: bool, key: Seq<char>, value: FieldView) -> Seq<(Seq<char>, FieldView)> {
    if present {
        field(key, value)
    } else {
        Seq::empty()
    }
}

/// The kind of a group as Clash names it: a smart group is a `url-test` one.
pub open spec fn clash_type_name(t: ProxyGroupType) -> Seq<char> {
    if t == ProxyGroupType::Smart {
        "url-test"@
    } else {
        group_type_name(t)
    }
}

/// The test fields of a latency-testing group: its URL, and its interval
/// and tolerance where they are set.
pub open spec fn test_fields(c: ProxyGroupConfig) -> Seq<(Seq<char>, FieldView)> {
    field("url"@, FieldView::Text(c.url@)) + field_if(
        c.interval > 0,
        "interval"@,
        FieldView::Number(c.interval as nat),
    ) + field_if(c.tolerance > 0, "tolerance"@, FieldView::Number(c.tolerance as nat))
}

/// The lazy flag, written only when it is off.
pub open spec fn lazy_field(c: ProxyGroupConfig) -> Seq<(Seq<char>, FieldView)> {
    field_if(!c.lazy, "lazy"@, FieldView::Flag(false))
}

/// The fields that depend on the kind of a group.
pub open spec fn kind_fields(c: ProxyGroupConfig) -> Seq<(Seq<char>, FieldView)> {
    match c.group_type {
        ProxyGroupType::LoadBalance => field("strategy"@, FieldView::Text(strategy_name(c.strategy)))
            + lazy_field(c) + test_fields(c),
        ProxyGroupType::URLTest | ProxyGroupType::Smart => lazy_field(c) + test_fields(c),
        ProxyGroupType::Fallback => test_fields(c),
        _ => Seq::empty(),
    }
}

/// The serialized fields of a group before its members: name, kind, the
/// kind's own fields, and the flags that are set.
pub open spec fn option_fields(c: ProxyGroupConfig) -> Seq<(Seq<char>, FieldView)> {
    field("name"@, FieldView::Text(c.name@)) + field("type"@, FieldView::Text(clash_type_name(c.group_type)))
        + kind_fields(c) + field_if(c.disable_udp, "disable-udp"@, FieldView::Flag(true)) + field_if(
        c.persistent,
        "persistent"@,
        FieldView::Flag(true),
    ) + field_if(c.evaluate_before_use, "evaluate-before-use"@, FieldView::Flag(true))
}

/// The serialized fields of a group: its options, then its nodes and its
/// providers where it has any.
pub open spec fn config_fields(c: ProxyGroupConfig) -> Seq<(Seq<char>, FieldView)> {
    option_fields(c) + field_if(
        c.proxies@.len() > 0,
        "proxies"@,
        FieldView::List(string_views(c.proxies@)),
    ) + field_if(c.using_provider@.len() > 0, "use"@, FieldView::List(string_views(c.using_provider@)))
}

/// Appends one field.
fn push_field(v: &mut Vec<(String, FieldValue)>, key: &str, value: FieldValue)
    ensures
        field_views(final(v)@) == field_views(old(v)@) + field(key@, value@),
{
    let ghost before = field_views(v@);
    v.push((key.to_owned(), value));
    assert(field_views(v@) =~= before + field(key@, value@));
}

/// Appends the test fields of a group (see [`test_fields`]).
fn push_test_fields(v: &mut Vec<(String, FieldValue)>, c: &ProxyGroupConfig)
    ensures
        field_views(final(v)@) == field_views(old(v)@) + test_fields(*c),
{
    let ghost start = field_views(v@);
    push_field(v, "url", FieldValue::Text(c.url.clone()));
    let ghost a = field_views(v@);
    if c.interval > 0 {
        push_field(v, "interval", FieldValue::Number(c.interval));
    }
    assert(field_views(v@) == a + field_if(c.interval > 0, "interval"@, FieldView::Number(c.interval as nat)));
    let ghost b = field_views(v@);
    if c.tolerance > 0 {
        push_field(v, "tolerance", FieldValue::Number(c.tolerance));
    }
    assert(field_views(v@) == b + field_if(c.tolerance > 0, "tolerance"@, FieldView::Number(c.tolerance as nat)));
    assert(field_views(v@) =~= start + test_fields(*c));
}

/// Appends the lazy flag where it is off (see [`lazy_field`]).
fn push_lazy_field(v: &mut Vec<(String, FieldValue)>, c: &ProxyGroupConfig)
    ensures
        field_views(final(v)@) == field_views(old(v)@) + lazy_field(*c),
{
    let ghost start = field_views(v@);
    if !c.lazy {
        push_field(v, "lazy", FieldValue::Flag(false));
    }
    assert(field_views(v@) =~= start + lazy_field(*c));
}

/// The serialized fields of a group before its members (see [`option_fields`]).
pub fn option_fields_of(c: &ProxyGroupConfig) -> (r: Vec<(String, FieldValue)>)
    ensures
        field_views(r@) == option_fields(*c),
{
    let mut v: Vec<(String, FieldValue)> = Vec::new();
    assert(field_views(v@) =~= Seq::<(Seq<char>, FieldView)>::empty());
    push_field(&mut v, "name", FieldValue::Text(c.name.clone()));
    let kind = if c.group_type == ProxyGroupType::Smart {
        "url-test"
    } else {
        c.type_str()
    };
    push_field(&mut v, "type", FieldValue::Text(kind.to_owned()));
    let ghost head = field_views(v@);
    match c.group_type {
        ProxyGroupType::LoadBalance => {
            push_field(&mut v, "strategy", FieldValue::Text(c.strategy_str().to_owned()));
            push_lazy_field(&mut v, c);
            push_test_fields(&mut v, c);
        },
        ProxyGroupType::URLTest | ProxyGroupType::Smart => {
            push_lazy_field(&mut v, c);
            push_test_fields(&mut v, c);
        },
        ProxyGroupType::Fallback => {
            push_test_fields(&mut v, c);
        },
        _ => {},
    }
    assert(field_views(v@) =~= head + kind_fields(*c));
    let ghost mid = field_views(v@);
    if c.disable_udp {
        push_field(&mut v, "disable-udp", FieldValue::Flag(true));
    }
    assert(field_views(v@) =~= mid + field_if(c.disable_udp, "disable-udp"@, FieldView::Flag(true)));
    let ghost m2 = field_views(v@);
    if c.persistent {
        push_field(&mut v, "persistent", FieldValue::Flag(true));
    }
    assert(field_views(v@) =~= m2 + field_if(c.persistent, "persistent"@, FieldView::Flag(true)));
    let ghost m3 = field_views(v@);
    if c.evaluate_before_use {
        push_field(&mut v, "evaluate-before-use", FieldValue::Flag(true));
    }
    assert(field_views(v@) =~= m3 + field_if(
        c.evaluate_before_use,
        "evaluate-before-use"@,
        FieldView::Flag(true),
    ));
    assert(field_views(v@) =~= option_fields(*c));
    v
}

impl ProxyGroupConfig {
    /// The fields a group is serialized with, in order (see
    /// [`config_fields`]): a smart group is written as `url-test`, flags only
    /// when they differ from their defaults, and nodes and providers only
    /// when there are any.
    pub fn serialize_fields(&self) -> (r: Vec<(String, FieldValue)>)
        ensures
            field_views(r@) == config_fields(*self),
    {
        let mut v = option_fields_of(self);
        let ghost a = field_views(v@);
        if self.proxies.len() > 0 {
            push_field(&mut v, "proxies", FieldValue::List(clone_strings(&self.proxies)));
        }
        assert(field_views(v@) =~= a + field_if(
            self.proxies@.len() > 0,
            "proxies"@,
            FieldView::List(string_views(self.proxies@)),
        ));
        let ghost b = field_views(v@);
        if self.using_provider.len() > 0 {
            push_field(&mut v, "use", FieldValue::List(clone_strings(&self.using_provider)));
        }
        assert(field_views(v@) =~= b + field_if(
            self.using_provider@.len() > 0,
            "use"@,
            FieldView::List(string_views(self.using_provider@)),
        ));
        assert(field_views(v@) =~= config_fields(*self));
        v
    }
}

} // verus!

//! Options shared by every kind of proxy in a Clash configuration.
use crate::models::proxy::Proxy;
use crate::text::clone_opt;
use vstd::prelude::*;

verus! {

/// Options shared by every kind of proxy.
#[derive(Debug, Clone)]
pub struct CommonProxyOptions {
    pub name: String,
    pub server: String,
    pub port: u16,
    pub udp: Option<bool>,
    pub tfo: Option<bool>,
    pub skip_cert_verify: Option<bool>,
    pub tls: Option<bool>,
    pub fingerprint: Option<String>,
    pub client_fingerprint: Option<String>,
    pub sni: Option<String>,
    pub mptcp: Option<bool>,
    /// `interface-name` in ClashMeta.
    pub interface: Option<String>,
    /// `routing-mark` in ClashMeta.
    pub routing_mark: Option<i32>,
    /// `ip-version` in ClashMeta.
    pub ip_version: Option<String>,
    /// `dialer-proxy` in ClashMeta.
    pub dialer_proxy: Option<String>,
}

/// All optional settings of `c` are unset.
pub open spec fn options_unset(c: CommonProxyOptions) -> bool {
    &&& c.udp is None
    &&& c.tfo is None
    &&& c.skip_cert_verify is None
    &&& c.tls is None
    &&& c.fingerprint is None
    &&& c.client_fingerprint is None
    &&& c.sni is None
    &&& c.mptcp is None
    &&& c.interface is None
    &&& c.routing_mark is None
    &&& c.ip_version is None
    &&& c.dialer_proxy is None
}

impl CommonProxyOptions {
    /// Options with the given name, server and port, and nothing else set.
    pub fn new(name: String, server: String, port: u16) -> (r: Self)
        ensures
            r.name == name,
            r.server == server,
            r.port == port,
            options_unset(r),
    {
        Self {
            name,
            server,
            port,
            udp: None,
            tfo: None,
            skip_cert_verify: None,
            tls: None,
            fingerprint: None,
            client_fingerprint: None,
            sni: None,
            mptcp: None,
            interface: None,
            routing_mark: None,
            ip_version: None,
            dialer_proxy: None,
        }
    }

    /// A builder that starts from [`CommonProxyOptions::new`].
    pub fn builder(name: String, server: String, port: u16) -> (r: CommonProxyOptionsBuilder)
        ensures
            r@.name == name,
            r@.server == server,
            r@.port == port,
            options_unset(r@),
    {
        CommonProxyOptionsBuilder { common: Self::new(name, server, port) }
    }
}

/// Builder of [`CommonProxyOptions`]; each setter replaces one option.
pub struct CommonProxyOptionsBuilder {
    common: CommonProxyOptions,
}

impl View for CommonProxyOptionsBuilder {
    type V = CommonProxyOptions;

    /// The options built so far.
    closed spec fn view(&self) -> CommonProxyOptions {
        self.common
    }
}

impl CommonProxyOptionsBuilder {
    /// Sets the UDP option.
    pub fn udp(self, value: Option<bool>) -> (r: Self)
        ensures
            r@ == (CommonProxyOptions { udp: value, ..self@ }),
    {
        let mut b = self;
        b.common.udp = value;
        b
    }

    /// Sets the TCP Fast Open option.
    pub fn tfo(self, value: Option<bool>) -> (r: Self)
        ensures
            r@ == (CommonProxyOptions { tfo: value, ..self@ }),
    {
        let mut b = self;
        b.common.tfo = value;
        b
    }

    /// Sets the skip-certificate-verification option.
    pub fn skip_cert_verify(self, value: Option<bool>) -> (r: Self)
        ensures
            r@ == (CommonProxyOptions { skip_cert_verify: value, ..self@ }),
    {
        let mut b = self;
        b.common.skip_cert_verify = value;
        b
    }

    /// Sets the TLS option.
    pub fn tls(self, value: Option<bool>) -> (r: Self)
        ensures
            r@ == (CommonProxyOptions { tls: value, ..self@ }),
    {
        let mut b = self;
        b.common.tls = value;
        b
    }

    /// Sets the SNI option.
    pub fn sni(self, value: Option<String>) -> (r: Self)
        ensures
            r@ == (CommonProxyOptions { sni: value, ..self@ }),
    {
        let mut b = self;
        b.common.sni = value;
        b
    }

    /// Sets the fingerprint option.
    pub fn fingerprint(self, value: Option<String>) -> (r: Self)
        ensures
            r@ == (CommonProxyOptions { fingerprint: value, ..self@ }),
    {
        let mut b = self;
        b.common.fingerprint = value;
        b
    }

    /// Sets the client fingerprint option.
    pub fn client_fingerprint(self, value: Option<String>) -> (r: Self)
        ensures
            r@ == (CommonProxyOptions { client_fingerprint: value, ..self@ }),
    {
        let mut b = self;
        b.common.client_fingerprint = value;
        b
    }

    /// Sets the MPTCP option.
    pub fn mptcp(self, value: Option<bool>) -> (r: Self)
        ensures
            r@ == (CommonProxyOptions { mptcp: value, ..self@ }),
    {
        let mut b = self;
        b.common.mptcp = value;
        b
    }

    /// Sets the interface option.
    pub fn interface(self, value: Option<String>) -> (r: Self)
        ensures
            r@ == (CommonProxyOptions { interface: value, ..self@ }),
    {
        let mut b = self;
        b.common.interface = value;
        b
    }

    /// Sets the routing mark option.
    pub fn routing_mark(self, value: Option<i32>) -> (r: Self)
        ensures
            r@ == (CommonProxyOptions { routing_mark: value, ..self@ }),
    {
        let mut b = self;
        b.common.routing_mark = value;
        b
    }

    /// Sets the IP version option.
    pub fn ip_version(self, value: Option<String>) -> (r: Self)
        ensures
            r@ == (CommonProxyOptions { ip_version: value, ..self@ }),
    {
        let mut b = self;
        b.common.ip_version = value;
        b
    }

    /// Sets the dialer proxy option.
    pub fn dialer_proxy(self, value: Option<String>) -> (r: Self)
        ensures
            r@ == (CommonProxyOptions { dialer_proxy: value, ..self@ }),
    {
        let mut b = self;
        b.common.dialer_proxy = value;
        b
    }

    /// The options built.
    pub fn build(self) -> (r: CommonProxyOptions)
        ensures
            r == self@,
    {
        self.common
    }
}

/// The common options of a node: its remark as name, server, port, UDP,
/// TCP Fast Open, certificate check and SNI.
pub open spec fn proxy_common(p: Proxy) -> CommonProxyOptions {
    CommonProxyOptions {
        name: p.remark,
        server: p.hostname,
        port: p.port,
        udp: p.udp,
        tfo: p.tcp_fast_open,
        skip_cert_verify: p.allow_insecure,
        tls: None,
        fingerprint: None,
        client_fingerprint: None,
        sni: p.sni,
        mptcp: None,
        interface: None,
        routing_mark: None,
        ip_version: None,
        dialer_proxy: None,
    }
}

/// The options of a node with only its name, server and port.
pub open spec fn proxy_basic(p: Proxy) -> CommonProxyOptions {
    CommonProxyOptions {
        name: p.remark,
        server: p.hostname,
        port: p.port,
        udp: None,
        tfo: None,
        skip_cert_verify: None,
        tls: None,
        fingerprint: None,
        client_fingerprint: None,
        sni: None,
        mptcp: None,
        interface: None,
        routing_mark: None,
        ip_version: None,
        dialer_proxy: None,
    }
}

/// The common options of a node (see [`proxy_common`]).
pub fn common_of(proxy: &Proxy) -> (r: CommonProxyOptions)
    ensures
        r == proxy_common(*proxy),
{
    CommonProxyOptions::builder(proxy.remark.clone(), proxy.hostname.clone(), proxy.port)
        .udp(proxy.udp)
        .tfo(proxy.tcp_fast_open)
        .skip_cert_verify(proxy.allow_insecure)
        .sni(clone_opt(&proxy.sni))
        .build()
}

/// The name, server and port of a node, nothing else set.
pub fn basic_of(proxy: &Proxy) -> (r: CommonProxyOptions)
    ensures
        r == proxy_basic(*proxy),
{
    CommonProxyOptions::builder(proxy.remark.clone(), proxy.hostname.clone(), proxy.port).build()
}

/// Building after setting an option gives options with that value and all
/// others as they were, whatever the order of the other setters.
pub proof fn law_builder_setters_commute(b: CommonProxyOptions, u: Option<bool>, t: Option<bool>)
    ensures
        (CommonProxyOptions { tfo: t, ..CommonProxyOptions { udp: u, ..b } }) == (CommonProxyOptions {
            udp: u,
            ..CommonProxyOptions { tfo: t, ..b }
        }),
{
}

/// A call of one setter of [`CommonProxyOptionsBuilder`], with its argument.
pub enum BuilderCall {
    Udp(Option<bool>),
    Tfo(Option<bool>),
    SkipCertVerify(Option<bool>),
    Tls(Option<bool>),
    Sni(Option<String>),
    Fingerprint(Option<String>),
    ClientFingerprint(Option<String>),
    Mptcp(Option<bool>),
    Interface(Option<String>),
    RoutingMark(Option<i32>),
    IpVersion(Option<String>),
    DialerProxy(Option<String>),
}

/// The options after one setter call: that option replaced, all else kept
/// (what each setter's `ensures` states).
pub open spec fn apply_call(c: CommonProxyOptions, call: BuilderCall) -> CommonProxyOptions {
    match call {
        BuilderCall::Udp(x) => CommonProxyOptions { udp: x, ..c },
        BuilderCall::Tfo(x) => CommonProxyOptions { tfo: x, ..c },
        BuilderCall::SkipCertVerify(x) => CommonProxyOptions { skip_cert_verify: x, ..c },
        BuilderCall::Tls(x) => CommonProxyOptions { tls: x, ..c },
        BuilderCall::Sni(x) => CommonProxyOptions { sni: x, ..c },
        BuilderCall::Fingerprint(x) => CommonProxyOptions { fingerprint: x, ..c },
        BuilderCall::ClientFingerprint(x) => CommonProxyOptions { client_fingerprint: x, ..c },
        BuilderCall::Mptcp(x) => CommonProxyOptions { mptcp: x, ..c },
        BuilderCall::Interface(x) => CommonProxyOptions { interface: x, ..c },
        BuilderCall::RoutingMark(x) => CommonProxyOptions { routing_mark: x, ..c },
        BuilderCall::IpVersion(x) => CommonProxyOptions { ip_version: x, ..c },
        BuilderCall::DialerProxy(x) => CommonProxyOptions { dialer_proxy: x, ..c },
    }
}

/// The options after the setter calls `calls`, in order, from `c`.
pub open spec fn apply_calls(c: CommonProxyOptions, calls: Seq<BuilderCall>) -> CommonProxyOptions
    decreases calls.len(),
{
    if calls.len() == 0 {
        c
    } else {
        apply_call(apply_calls(c, calls.drop_last()), calls.last())
    }
}

/// The argument of the last call that `sel` picks out of `calls` (`sel`
/// gives `Some` of the argument for the calls of one setter); `None` where
/// there is no such call.
pub open spec fn last_set<T>(calls: Seq<BuilderCall>, sel: spec_fn(BuilderCall) -> Option<Option<T>>) -> Option<T>
    decreases calls.len(),
{
    if calls.len() == 0 {
        None
    } else {
        match sel(calls.last()) {
            Some(v) => v,
            None => last_set(calls.drop_last(), sel),
        }
    }
}

/// The argument of a call of the `udp` setter.
pub open spec fn udp_arg(call: BuilderCall) -> Option<Option<bool>> {
    match call {
        BuilderCall::Udp(x) => Some(x),
        _ => None,
    }
}

/// The argument of a call of the `tfo` setter.
pub open spec fn tfo_arg(call: BuilderCall) -> Option<Option<bool>> {
    match call {
        BuilderCall::Tfo(x) => Some(x),
        _ => None,
    }
}

/// The argument of a call of the `skip_cert_verify` setter.
pub open spec fn skip_cert_verify_arg(call: BuilderCall) -> Option<Option<bool>> {
    match call {
        BuilderCall::SkipCertVerify(x) => Some(x),
        _ => None,
    }
}

/// The argument of a call of the `tls` setter.
pub open spec fn tls_arg(call: BuilderCall) -> Option<Option<bool>> {
    match call {
        BuilderCall::Tls(x) => Some(x),
        _ => None,
    }
}

/// The argument of a call of the `sni` setter.
pub open spec fn sni_arg(call: BuilderCall) -> Option<Option<String>> {
    match call {
        BuilderCall::Sni(x) => Some(x),
        _ => None,
    }
}

/// The argument of a call of the `fingerprint` setter.
pub open spec fn fingerprint_arg(call: BuilderCall) -> Option<Option<String>> {
    match call {
        BuilderCall::Fingerprint(x) => Some(x),
        _ => None,
    }
}

/// The argument of a call of the `client_fingerprint` setter.
pub open spec fn client_fingerprint_arg(call: BuilderCall) -> Option<Option<String>> {
    match call {
        BuilderCall::ClientFingerprint(x) => Some(x),
        _ => None,
    }
}

/// The argument of a call of the `mptcp` setter.
pub open spec fn mptcp_arg(call: BuilderCall) -> Option<Option<bool>> {
    match call {
        BuilderCall::Mptcp(x) => Some(x),
        _ => None,
    }
}

/// The argument of a call of the `interface` setter.
pub open spec fn interface_arg(call: BuilderCall) -> Option<Option<String>> {
    match call {
        BuilderCall::Interface(x) => Some(x),
        _ => None,
    }
}

/// The argument of a call of the `routing_mark` setter.
pub open spec fn routing_mark_arg(call: BuilderCall) -> Option<Option<i32>> {
    match call {
        BuilderCall::RoutingMark(x) => Some(x),
        _ => None,
    }
}

/// The argument of a call of the `ip_version` setter.
pub open spec fn ip_version_arg(call: BuilderCall) -> Option<Option<String>> {
    match call {
        BuilderCall::IpVersion(x) => Some(x),
        _ => None,
    }
}

/// The argument of a call of the `dialer_proxy` setter.
pub open spec fn dialer_proxy_arg(call: BuilderCall) -> Option<Option<String>> {
    match call {
        BuilderCall::DialerProxy(x) => Some(x),
        _ => None,
    }
}

/// Whatever setters are called on a fresh builder, and in whatever order,
/// the options built keep its name, server and port, and each option is the
/// argument of the last call of its setter, or unset where its setter was
/// never called.
pub proof fn law_builder_last_call_wins(c: CommonProxyOptions, calls: Seq<BuilderCall>)
    requires
        options_unset(c),
    ensures
        ({
            let r = apply_calls(c, calls);
            &&& r.name == c.name
            &&& r.server == c.server
            &&& r.port == c.port
        }),
        apply_calls(c, calls).udp == last_set(calls, |k: BuilderCall| udp_arg(k)),
        apply_calls(c, calls).tfo == last_set(calls, |k: BuilderCall| tfo_arg(k)),
        apply_calls(c, calls).skip_cert_verify == last_set(calls, |k: BuilderCall| skip_cert_verify_arg(k)),
        apply_calls(c, calls).tls == last_set(calls, |k: BuilderCall| tls_arg(k)),
        apply_calls(c, calls).sni == last_set(calls, |k: BuilderCall| sni_arg(k)),
        apply_calls(c, calls).fingerprint == last_set(calls, |k: BuilderCall| fingerprint_arg(k)),
        apply_calls(c, calls).client_fingerprint == last_set(calls, |k: BuilderCall| client_fingerprint_arg(k)),
        apply_calls(c, calls).mptcp == last_set(calls, |k: BuilderCall| mptcp_arg(k)),
        apply_calls(c, calls).interface == last_set(calls, |k: BuilderCall| interface_arg(k)),
        apply_calls(c, calls).routing_mark == last_set(calls, |k: BuilderCall| routing_mark_arg(k)),
        apply_calls(c, calls).ip_version == last_set(calls, |k: BuilderCall| ip_version_arg(k)),
        apply_calls(c, calls).dialer_proxy == last_set(calls, |k: BuilderCall| dialer_proxy_arg(k)),
    decreases calls.len(),
{
    if calls.len() > 0 {
        law_builder_last_call_wins(c, calls.drop_last());
    }
}

} // verus!

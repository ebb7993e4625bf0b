//! Proxies and proxy groups of a Clash configuration.
use super::output_proxy_types::clash_output_anytls::{anytls_bare, ClashOutputAnyTLS};
use super::output_proxy_types::clash_output_http::HttpProxy;
use super::output_proxy_types::clash_output_hysteria::HysteriaProxy;
use super::output_proxy_types::clash_output_hysteria2::Hysteria2Proxy;
use super::output_proxy_types::clash_output_shadowsocks::ShadowsocksProxy;
use super::output_proxy_types::clash_output_shadowsocksr::ShadowsocksRProxy;
use super::output_proxy_types::clash_output_snell::SnellProxy;
use super::output_proxy_types::clash_output_socks5::Socks5Proxy;
use super::output_proxy_types::clash_output_trojan::TrojanProxy;
use super::output_proxy_types::clash_output_vless::{vless_bare, VLessProxy};
use super::output_proxy_types::clash_output_vmess::VmessProxy;
use super::output_proxy_types::clash_output_wireguard::WireGuardProxy;
use super::output_proxy_types::common_proxy_options::{
    basic_of, proxy_basic, CommonProxyOptions,
};
use crate::models::proxy::{Proxy, ProxyType};
use vstd::prelude::*;

verus! {

/// A proxy of a Clash configuration, one variant per protocol.
#[derive(Debug, Clone)]
pub enum ClashProxyOutput {
    Shadowsocks(ShadowsocksProxy),
    ShadowsocksR(ShadowsocksRProxy),
    VMess(VmessProxy),
    Trojan(TrojanProxy),
    Http(HttpProxy),
    Socks5(Socks5Proxy),
    Snell(SnellProxy),
    WireGuard(WireGuardProxy),
    Hysteria(HysteriaProxy),
    Hysteria2(Hysteria2Proxy),
    VLess(VLessProxy),
    AnyTls(ClashOutputAnyTLS),
}

impl ClashProxyOutput {
    /// A Shadowsocks proxy with the given common options and nothing else.
    pub fn new_shadowsocks(common: CommonProxyOptions) -> (r: Self)
        ensures
            r matches ClashProxyOutput::Shadowsocks(p) && ShadowsocksProxy::bare(p, common),
    {
        ClashProxyOutput::Shadowsocks(ShadowsocksProxy::new(common))
    }

    /// A ShadowsocksR proxy with the given common options and nothing else.
    pub fn new_shadowsocksr(common: CommonProxyOptions) -> (r: Self)
        ensures
            r matches ClashProxyOutput::ShadowsocksR(p) && ShadowsocksRProxy::bare(p, common),
    {
        ClashProxyOutput::ShadowsocksR(ShadowsocksRProxy::new(common))
    }

    /// A VMess proxy with the given common options and nothing else.
    pub fn new_vmess(common: CommonProxyOptions) -> (r: Self)
        ensures
            r matches ClashProxyOutput::VMess(p) && VmessProxy::bare(p, common),
    {
        ClashProxyOutput::VMess(VmessProxy::new(common))
    }

    /// An HTTP proxy with the given common options and nothing else.
    pub fn new_http(common: CommonProxyOptions) -> (r: Self)
        ensures
            r matches ClashProxyOutput::Http(p) && HttpProxy::bare(p, common),
    {
        ClashProxyOutput::Http(HttpProxy::new(common))
    }

    /// A Trojan proxy with the given common options and nothing else.
    pub fn new_trojan(common: CommonProxyOptions) -> (r: Self)
        ensures
            r matches ClashProxyOutput::Trojan(p) && TrojanProxy::bare(p, common),
    {
        ClashProxyOutput::Trojan(TrojanProxy::new(common))
    }

    /// A SOCKS5 proxy with the given common options and nothing else.
    pub fn new_socks5(common: CommonProxyOptions) -> (r: Self)
        ensures
            r matches ClashProxyOutput::Socks5(p) && Socks5Proxy::bare(p, common),
    {
        ClashProxyOutput::Socks5(Socks5Proxy::new(common))
    }

    /// A Snell proxy with the given common options and nothing else.
    pub fn new_snell(common: CommonProxyOptions) -> (r: Self)
        ensures
            r matches ClashProxyOutput::Snell(p) && SnellProxy::bare(p, common),
    {
        ClashProxyOutput::Snell(SnellProxy::new(common))
    }

    /// A WireGuard proxy with the given common options and nothing else.
    pub fn new_wireguard(common: CommonProxyOptions) -> (r: Self)
        ensures
            r matches ClashProxyOutput::WireGuard(p) && WireGuardProxy::bare(p, common),
    {
        ClashProxyOutput::WireGuard(WireGuardProxy::new(common))
    }

    /// A Hysteria proxy with the given common options and nothing else.
    pub fn new_hysteria(common: CommonProxyOptions) -> (r: Self)
        ensures
            r matches ClashProxyOutput::Hysteria(p) && HysteriaProxy::bare(p, common),
    {
        ClashProxyOutput::Hysteria(HysteriaProxy::new(common))
    }

    /// A Hysteria2 proxy with the given common options and nothing else.
    pub fn new_hysteria2(common: CommonProxyOptions) -> (r: Self)
        ensures
            r matches ClashProxyOutput::Hysteria2(p) && Hysteria2Proxy::bare(p, common),
    {
        ClashProxyOutput::Hysteria2(Hysteria2Proxy::new(common))
    }

    /// A VLESS proxy with the given common options and nothing else.
    pub fn new_vless(common: CommonProxyOptions) -> (r: Self)
        ensures
            r matches ClashProxyOutput::VLess(p) && vless_bare(p, common),
    {
        ClashProxyOutput::VLess(VLessProxy::new(common))
    }

    /// An AnyTLS proxy with the given common options and nothing else.
    pub fn new_anytls(common: CommonProxyOptions) -> (r: Self)
        ensures
            r matches ClashProxyOutput::AnyTls(p) && anytls_bare(p, common),
    {
        ClashProxyOutput::AnyTls(ClashOutputAnyTLS::new(common))
    }

    /// `r` is the Clash proxy for the node `proxy` (see [`Self::from_proxy`]).
    pub open spec fn made_from(r: Self, proxy: Proxy) -> bool {
        match proxy.proxy_type {
            ProxyType::Shadowsocks => r matches ClashProxyOutput::Shadowsocks(p)
                && ShadowsocksProxy::made_from(p, proxy),
            ProxyType::ShadowsocksR => r matches ClashProxyOutput::ShadowsocksR(p)
                && ShadowsocksRProxy::made_from(p, proxy),
            ProxyType::VMess => r matches ClashProxyOutput::VMess(p) && VmessProxy::made_from(
                p,
                proxy,
            ),
            ProxyType::Vless => r matches ClashProxyOutput::VLess(p) && VLessProxy::made_from(
                p,
                proxy,
            ),
            ProxyType::Trojan => r matches ClashProxyOutput::Trojan(p) && TrojanProxy::made_from(
                p,
                proxy,
            ),
            ProxyType::HTTP | ProxyType::HTTPS => r matches ClashProxyOutput::Http(p)
                && HttpProxy::made_from(p, proxy),
            ProxyType::Socks5 => r matches ClashProxyOutput::Socks5(p) && Socks5Proxy::made_from(
                p,
                proxy,
            ),
            ProxyType::Snell => r matches ClashProxyOutput::Snell(p) && if proxy.snell_version
                >= 4 {
                SnellProxy::bare(p, proxy_basic(proxy))
            } else {
                SnellProxy::made_from(p, proxy)
            },
            ProxyType::WireGuard => r matches ClashProxyOutput::WireGuard(p)
                && WireGuardProxy::made_from(p, proxy),
            ProxyType::Hysteria => r matches ClashProxyOutput::Hysteria(p)
                && HysteriaProxy::made_from(p, proxy),
            ProxyType::Hysteria2 => r matches ClashProxyOutput::Hysteria2(p)
                && Hysteria2Proxy::made_from(p, proxy),
            ProxyType::AnyTls => r matches ClashProxyOutput::AnyTls(p)
                && ClashOutputAnyTLS::made_from(p, proxy),
            ProxyType::Unknown => r matches ClashProxyOutput::Http(p) && HttpProxy::bare(
                p,
                proxy_basic(proxy),
            ),
        }
    }

    /// The Clash proxy for a node, chosen by its protocol. A Snell node of
    /// version 4 or later, which Clash cannot use, gives a Snell proxy with
    /// only its name, server and port; a node of unknown protocol gives such
    /// an HTTP proxy. Callers leave both out of a configuration.
    pub fn from_proxy(proxy: Proxy) -> (r: Self)
        ensures
            Self::made_from(r, proxy),
    {
        match proxy.proxy_type {
            ProxyType::Shadowsocks => ClashProxyOutput::Shadowsocks(
                ShadowsocksProxy::from_proxy(proxy),
            ),
            ProxyType::ShadowsocksR => ClashProxyOutput::ShadowsocksR(
                ShadowsocksRProxy::from_proxy(proxy),
            ),
            ProxyType::VMess => ClashProxyOutput::VMess(VmessProxy::from_proxy(proxy)),
            ProxyType::Vless => ClashProxyOutput::VLess(VLessProxy::from_proxy(proxy)),
            ProxyType::Trojan => ClashProxyOutput::Trojan(TrojanProxy::from_proxy(proxy)),
            ProxyType::HTTP | ProxyType::HTTPS => ClashProxyOutput::Http(
                HttpProxy::from_proxy(proxy),
            ),
            ProxyType::Socks5 => ClashProxyOutput::Socks5(Socks5Proxy::from_proxy(proxy)),
            ProxyType::Snell => {
                if proxy.snell_version >= 4 {
                    ClashProxyOutput::Snell(SnellProxy::new(basic_of(&proxy)))
                } else {
                    ClashProxyOutput::Snell(SnellProxy::from_proxy(proxy))
                }
            },
            ProxyType::WireGuard => ClashProxyOutput::WireGuard(WireGuardProxy::from_proxy(proxy)),
            ProxyType::Hysteria => ClashProxyOutput::Hysteria(HysteriaProxy::from_proxy(proxy)),
            ProxyType::Hysteria2 => ClashProxyOutput::Hysteria2(Hysteria2Proxy::from_proxy(proxy)),
            ProxyType::AnyTls => ClashProxyOutput::AnyTls(ClashOutputAnyTLS::from_proxy(proxy)),
            ProxyType::Unknown => ClashProxyOutput::Http(HttpProxy::new(basic_of(&proxy))),
        }
    }
}

/// Access to the options that every kind of Clash proxy has.
pub trait ClashProxyCommon: Sized {
    /// The common options held.
    spec fn common_options(&self) -> CommonProxyOptions;

    /// The same proxy with its common options replaced by `c`.
    spec fn with_common(&self, c: CommonProxyOptions) -> Self;

    /// The common options.
    fn common(&self) -> (r: &CommonProxyOptions)
        ensures
            *r == self.common_options(),
    ;

    /// The common options, for change in place.
    fn common_mut(&mut self) -> (r: &mut CommonProxyOptions)
        ensures
            *r == old(self).common_options(),
            *final(self) == old(self).with_common(*final(r)),
    ;

    /// Sets TCP Fast Open.
    fn set_tfo(&mut self, value: bool)
        ensures
            *final(self) == old(self).with_common(
                CommonProxyOptions { tfo: Some(value), ..old(self).common_options() },
            ),
    {
        self.common_mut().tfo = Some(value);
    }

    /// Sets UDP.
    fn set_udp(&mut self, value: bool)
        ensures
            *final(self) == old(self).with_common(
                CommonProxyOptions { udp: Some(value), ..old(self).common_options() },
            ),
    {
        self.common_mut().udp = Some(value);
    }

    /// Sets whether the certificate check is skipped.
    fn set_skip_cert_verify(&mut self, value: bool)
        ensures
            *final(self) == old(self).with_common(
                CommonProxyOptions { skip_cert_verify: Some(value), ..old(self).common_options() },
            ),
    {
        self.common_mut().skip_cert_verify = Some(value);
    }

    /// Sets TLS.
    fn set_tls(&mut self, value: bool)
        ensures
            *final(self) == old(self).with_common(
                CommonProxyOptions { tls: Some(value), ..old(self).common_options() },
            ),
    {
        self.common_mut().tls = Some(value);
    }

    /// Sets the SNI.
    fn set_sni(&mut self, value: String)
        ensures
            *final(self) == old(self).with_common(
                CommonProxyOptions { sni: Some(value), ..old(self).common_options() },
            ),
    {
        self.common_mut().sni = Some(value);
    }

    /// Sets the fingerprint.
    fn set_fingerprint(&mut self, value: String)
        ensures
            *final(self) == old(self).with_common(
                CommonProxyOptions { fingerprint: Some(value), ..old(self).common_options() },
            ),
    {
        self.common_mut().fingerprint = Some(value);
    }
}

impl ClashProxyCommon for ClashProxyOutput {
    open spec fn common_options(&self) -> CommonProxyOptions {
        match self {
            ClashProxyOutput::Shadowsocks(p) => p.common,
            ClashProxyOutput::ShadowsocksR(p) => p.common,
            ClashProxyOutput::VMess(p) => p.common,
            ClashProxyOutput::Trojan(p) => p.common,
            ClashProxyOutput::Http(p) => p.common,
            ClashProxyOutput::Socks5(p) => p.common,
            ClashProxyOutput::Snell(p) => p.common,
            ClashProxyOutput::WireGuard(p) => p.common,
            ClashProxyOutput::Hysteria(p) => p.common,
            ClashProxyOutput::Hysteria2(p) => p.common,
            ClashProxyOutput::VLess(p) => p.common,
            ClashProxyOutput::AnyTls(p) => p.common,
        }
    }

    open spec fn with_common(&self, c: CommonProxyOptions) -> Self {
        match self {
            ClashProxyOutput::Shadowsocks(p) => ClashProxyOutput::Shadowsocks(
                ShadowsocksProxy { common: c, ..*p },
            ),
            ClashProxyOutput::ShadowsocksR(p) => ClashProxyOutput::ShadowsocksR(
                ShadowsocksRProxy { common: c, ..*p },
            ),
            ClashProxyOutput::VMess(p) => ClashProxyOutput::VMess(VmessProxy { common: c, ..*p }),
            ClashProxyOutput::Trojan(p) => ClashProxyOutput::Trojan(TrojanProxy { common: c, ..*p }),
            ClashProxyOutput::Http(p) => ClashProxyOutput::Http(HttpProxy { common: c, ..*p }),
            ClashProxyOutput::Socks5(p) => ClashProxyOutput::Socks5(Socks5Proxy { common: c, ..*p }),
            ClashProxyOutput::Snell(p) => ClashProxyOutput::Snell(SnellProxy { common: c, ..*p }),
            ClashProxyOutput::WireGuard(p) => ClashProxyOutput::WireGuard(
                WireGuardProxy { common: c, ..*p },
            ),
            ClashProxyOutput::Hysteria(p) => ClashProxyOutput::Hysteria(
                HysteriaProxy { common: c, ..*p },
            ),
            ClashProxyOutput::Hysteria2(p) => ClashProxyOutput::Hysteria2(
                Hysteria2Proxy { common: c, ..*p },
            ),
            ClashProxyOutput::VLess(p) => ClashProxyOutput::VLess(VLessProxy { common: c, ..*p }),
            ClashProxyOutput::AnyTls(p) => ClashProxyOutput::AnyTls(
                ClashOutputAnyTLS { common: c, ..*p },
            ),
        }
    }

    fn common(&self) -> (r: &CommonProxyOptions) {
        match self {
            ClashProxyOutput::Shadowsocks(p) => &p.common,
            ClashProxyOutput::ShadowsocksR(p) => &p.common,
            ClashProxyOutput::VMess(p) => &p.common,
            ClashProxyOutput::Trojan(p) => &p.common,
            ClashProxyOutput::Http(p) => &p.common,
            ClashProxyOutput::Socks5(p) => &p.common,
            ClashProxyOutput::Snell(p) => &p.common,
            ClashProxyOutput::WireGuard(p) => &p.common,
            ClashProxyOutput::Hysteria(p) => &p.common,
            ClashProxyOutput::Hysteria2(p) => &p.common,
            ClashProxyOutput::VLess(p) => &p.common,
            ClashProxyOutput::AnyTls(p) => &p.common,
        }
    }

    fn common_mut(&mut self) -> (r: &mut CommonProxyOptions) {
        match self {
            ClashProxyOutput::Shadowsocks(p) => &mut p.common,
            ClashProxyOutput::ShadowsocksR(p) => &mut p.common,
            ClashProxyOutput::VMess(p) => &mut p.common,
            ClashProxyOutput::Trojan(p) => &mut p.common,
            ClashProxyOutput::Http(p) => &mut p.common,
            ClashProxyOutput::Socks5(p) => &mut p.common,
            ClashProxyOutput::Snell(p) => &mut p.common,
            ClashProxyOutput::WireGuard(p) => &mut p.common,
            ClashProxyOutput::Hysteria(p) => &mut p.common,
            ClashProxyOutput::Hysteria2(p) => &mut p.common,
            ClashProxyOutput::VLess(p) => &mut p.common,
            ClashProxyOutput::AnyTls(p) => &mut p.common,
        }
    }
}

/// A proxy group of a Clash configuration, one variant per kind. The
/// providers a group uses are written under the key `use`.
#[derive(Debug, Clone)]
pub enum ClashProxyGroup {
    Select {
        name: String,
        proxies: Vec<String>,
        use_providers: Option<Vec<String>>,
        disable_udp: Option<bool>,
    },
    UrlTest {
        name: String,
        proxies: Vec<String>,
        url: String,
        interval: Option<u32>,
        tolerance: Option<u32>,
        lazy: Option<bool>,
        disable_udp: Option<bool>,
        use_providers: Option<Vec<String>>,
    },
    Fallback {
        name: String,
        proxies: Vec<String>,
        url: String,
        interval: Option<u32>,
        tolerance: Option<u32>,
        disable_udp: Option<bool>,
        use_providers: Option<Vec<String>>,
    },
    LoadBalance {
        name: String,
        proxies: Vec<String>,
        strategy: String,
        url: Option<String>,
        interval: Option<u32>,
        tolerance: Option<u32>,
        lazy: Option<bool>,
        disable_udp: Option<bool>,
        use_providers: Option<Vec<String>>,
        persistent: Option<bool>,
        evaluate_before_use: Option<bool>,
    },
    Relay {
        name: String,
        proxies: Vec<String>,
        disable_udp: Option<bool>,
        use_providers: Option<Vec<String>>,
    },
}

/// Whatever the protocol of a node, the Clash proxy made from it carries the
/// node's remark as its name, and the node's server and port.
pub proof fn law_clash_proxy_keeps_identity(r: ClashProxyOutput, proxy: Proxy)
    requires
        ClashProxyOutput::made_from(r, proxy),
    ensures
        r.common_options().name == proxy.remark,
        r.common_options().server == proxy.hostname,
        r.common_options().port == proxy.port,
{
}


/// The Clash proxy made from a Shadowsocks, ShadowsocksR, VMess, Trojan,
/// SOCKS5, WireGuard, Hysteria or Hysteria2 node keeps the node's own
/// settings: its SNI, UDP, TCP Fast Open and certificate-check settings are
/// the node's, each unset exactly where the node leaves it unset.
pub proof fn law_clash_proxy_keeps_node_settings(r: ClashProxyOutput, proxy: Proxy)
    requires
        ClashProxyOutput::made_from(r, proxy),
        proxy.proxy_type == ProxyType::Shadowsocks || proxy.proxy_type == ProxyType::ShadowsocksR
            || proxy.proxy_type == ProxyType::VMess || proxy.proxy_type == ProxyType::Trojan
            || proxy.proxy_type == ProxyType::Socks5 || proxy.proxy_type == ProxyType::WireGuard
            || proxy.proxy_type == ProxyType::Hysteria || proxy.proxy_type == ProxyType::Hysteria2,
    ensures
        r.common_options().sni == proxy.sni,
        r.common_options().udp == proxy.udp,
        r.common_options().tfo == proxy.tcp_fast_open,
        r.common_options().skip_cert_verify == proxy.allow_insecure,
{
}


/// The Clash proxy made from a Trojan node is a Trojan proxy with the
/// node's password and network; over WebSocket it carries the node's path,
/// and over gRPC the path as service name.
pub proof fn law_clash_trojan_keeps_node(r: ClashProxyOutput, proxy: Proxy)
    requires
        ClashProxyOutput::made_from(r, proxy),
        proxy.proxy_type == ProxyType::Trojan,
    ensures
        r matches ClashProxyOutput::Trojan(t) && t.password == proxy.password && t.network
            == proxy.transfer_protocol && (proxy.transfer_protocol matches Some(n) && n@ == "ws"@ ==> (
        t.ws_opts matches Some(w) && w.path == proxy.path)) && (proxy.transfer_protocol matches Some(n)
            && n@ == "grpc"@ ==> (t.grpc_opts matches Some(g) && g.service_name == proxy.path)),
{
}

} // verus!

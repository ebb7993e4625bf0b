//! The kinds of proxy in a Clash configuration.
pub mod clash_output_http;
pub mod clash_output_shadowsocks;
pub mod clash_output_shadowsocksr;
pub mod clash_output_socks5;
pub mod common_proxy_options;
pub mod clash_output_snell;
pub mod clash_output_trojan;
pub mod clash_output_vmess;
pub mod clash_output_wireguard;
pub mod clash_output_hysteria;
pub mod clash_output_hysteria2;
pub mod clash_output_anytls;
pub mod clash_output_vless;

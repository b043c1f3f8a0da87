use tego::callbacks::TorConfigType;
use tego::tor_config::{
    BridgeConfig, BridgeConfigError, BridgeConfigType, BuiltInBridge, FirewallConfig, ProxyError, ProxySettings,
    ProxyType, TorConfig,
};

const OBFS4_LINE: &str = "obfs4 192.0.2.1:443 0123456789ABCDEF0123456789ABCDEF01234567 cert=abc iat-mode=0";
const MEEK_LINE: &str = "meek_lite 192.0.2.2:80 url=https://example.com/ front=www.example.com";

#[test]
fn socks4_proxy_keeps_address_only() {
    let p = ProxySettings::new(ProxyType::Socks4, "127.0.0.1", 9050, Some("u".to_string()), None).unwrap();
    assert_eq!(p.proxy_type(), ProxyType::Socks4);
    assert_eq!(p.address(), ("127.0.0.1".to_string(), 9050));
    assert!(matches!(p.credentials(), Err(ProxyError::NoCredentials)));
}

#[test]
fn socks5_proxy_with_credentials() {
    let p = ProxySettings::new(ProxyType::Socks5, "proxy.example.com", 1080, Some("user".to_string()), Some("pw".to_string()))
        .unwrap();
    assert_eq!(p.proxy_type(), ProxyType::Socks5);
    assert_eq!(p.address(), ("proxy.example.com".to_string(), 1080));
    assert_eq!(p.credentials().unwrap(), (Some("user".to_string()), Some("pw".to_string())));
}

#[test]
fn socks5_credentials_limited_to_255_bytes() {
    let long = "x".repeat(256);
    let ok = "x".repeat(255);
    assert!(matches!(
        ProxySettings::new(ProxyType::Socks5, "127.0.0.1", 1080, Some(long.clone()), None),
        Err(ProxyError::UsernameTooLong)
    ));
    assert!(matches!(
        ProxySettings::new(ProxyType::Socks5, "127.0.0.1", 1080, None, Some(long)),
        Err(ProxyError::PasswordTooLong)
    ));
    assert!(ProxySettings::new(ProxyType::Socks5, "127.0.0.1", 1080, Some(ok.clone()), Some(ok)).is_ok());
    // bytes, not characters, are counted
    let wide = "\u{e9}".repeat(128);
    assert!(matches!(
        ProxySettings::new(ProxyType::Socks5, "127.0.0.1", 1080, Some(wide), None),
        Err(ProxyError::UsernameTooLong)
    ));
}

#[test]
fn proxy_host_as_tor_reads_it() {
    let p = ProxySettings::new(ProxyType::Socks4, "Proxy.Example.COM", 80, None, None).unwrap();
    assert_eq!(p.address(), ("proxy.example.com".to_string(), 80));
}

#[test]
fn ipv6_proxy_keeps_the_text_it_was_read_from() {
    let p = ProxySettings::new(ProxyType::Socks5, "[::1]", 1080, None, None).unwrap();
    assert_eq!(p.address(), ("::1".to_string(), 1080));
    assert_eq!(p.address_text(), ("[::1]".to_string(), 1080));
    let again = ProxySettings::new(ProxyType::Socks5, &p.address_text().0, p.address_text().1, None, None).unwrap();
    assert_eq!(again.address(), p.address());
}

#[test]
fn https_user_name_without_colon() {
    assert!(matches!(
        ProxySettings::new(ProxyType::Https, "127.0.0.1", 8080, Some("a:b".to_string()), None),
        Err(ProxyError::UsernameHasColon)
    ));
    let p = ProxySettings::new(ProxyType::Https, "127.0.0.1", 8080, Some("ab".to_string()), Some("c:d".to_string())).unwrap();
    assert_eq!(p.credentials().unwrap(), (Some("ab".to_string()), Some("c:d".to_string())));
}

#[test]
fn proxy_address_errors() {
    assert!(matches!(ProxySettings::new(ProxyType::Socks4, "127.0.0.1", 0, None, None), Err(ProxyError::ZeroPort)));
    assert!(matches!(ProxySettings::new(ProxyType::Socks4, "not a host!", 80, None, None), Err(ProxyError::InvalidAddress)));
    assert!(matches!(
        ProxySettings::new(
            ProxyType::Socks5,
            "6l62fw7tqctlu5fesdqukvpoxezkaxbzllrafa2ve6ewuhzphxczsjyd.onion",
            80,
            None,
            None
        ),
        Err(ProxyError::OnionAddress)
    ));
}

#[test]
fn proxy_from_parsed_target() {
    assert!(matches!(
        ProxySettings::from_target(ProxyType::Socks4, "bad", 80, None, None, None),
        Err(ProxyError::InvalidAddress)
    ));
    assert!(matches!(
        ProxySettings::from_target(ProxyType::Socks4, "x.onion", 80, Some((true, "x.onion".to_string(), 80)), None, None),
        Err(ProxyError::OnionAddress)
    ));
    let p = ProxySettings::from_target(ProxyType::Https, "10.0.0.1", 3128, Some((false, "10.0.0.1".to_string(), 3128)), None, None).unwrap();
    assert_eq!(p.address(), ("10.0.0.1".to_string(), 3128));
    assert_eq!(p.credentials().unwrap(), (None, None));
}

#[test]
fn builtin_bridges() {
    let b = BridgeConfig::new_builtin(BuiltInBridge::Snowflake);
    assert_eq!(b.config_type(), BridgeConfigType::BuiltIn);
    assert_eq!(b.builtin(), Ok(BuiltInBridge::Snowflake));
    assert!(matches!(b.bridge_lines(), Err(BridgeConfigError::WrongType)));
}

#[test]
fn custom_bridges_skip_blank_lines() {
    let text = format!("\n  {OBFS4_LINE}  \n\n{MEEK_LINE}\n");
    let b = BridgeConfig::new_custom(&text).unwrap();
    assert_eq!(b.config_type(), BridgeConfigType::Custom);
    assert!(matches!(b.builtin(), Err(BridgeConfigError::WrongType)));
    let lines = b.bridge_lines().unwrap();
    let parts: Vec<&str> = lines.split('\n').collect();
    assert_eq!(parts.len(), 2);
    assert!(parts[0].starts_with("obfs4 192.0.2.1:443 0123456789ABCDEF0123456789ABCDEF01234567"));
    assert!(parts[1].starts_with("meek_lite 192.0.2.2:80"));
}

#[test]
fn custom_bridges_errors() {
    assert!(matches!(BridgeConfig::new_custom(""), Err(BridgeConfigError::NoBridgeLines)));
    assert!(matches!(BridgeConfig::new_custom(" \n \n"), Err(BridgeConfigError::NoBridgeLines)));
    let text = format!("{OBFS4_LINE}\nnot a bridge line\n{MEEK_LINE}");
    assert!(matches!(BridgeConfig::new_custom(&text), Err(BridgeConfigError::InvalidBridgeLine { index: 1 })));
}

#[test]
fn bridges_from_parsed_lines() {
    assert!(matches!(BridgeConfig::from_parsed_lines(vec![]), Err(BridgeConfigError::NoBridgeLines)));
    assert!(matches!(
        BridgeConfig::from_parsed_lines(vec![Some("a".to_string()), None, None]),
        Err(BridgeConfigError::InvalidBridgeLine { index: 1 })
    ));
    let b = BridgeConfig::from_parsed_lines(vec![Some("a".to_string()), Some("b".to_string())]).unwrap();
    assert_eq!(b.bridge_lines().unwrap(), "a\nb");
}

#[test]
fn firewall_ports_as_list() {
    assert_eq!(FirewallConfig::new(vec![80, 443, 9001]).allowed_ports_string(), "80,443,9001");
    assert_eq!(FirewallConfig::new(vec![0, 65535]).allowed_ports_string(), "0,65535");
    assert_eq!(FirewallConfig::new(vec![]).allowed_ports_string(), "");
    assert_eq!(FirewallConfig::new(vec![7]).allowed_ports(), &vec![7u16]);
}

#[test]
fn tor_config_holds_its_parts() {
    let c = TorConfig::new_bundled_tor(
        Some(BridgeConfig::new_builtin(BuiltInBridge::Obfs4)),
        None,
        Some(FirewallConfig::new(vec![443])),
    );
    assert_eq!(c.config_type(), TorConfigType::BundledTor);
    assert!(matches!(c.bridge_config, Some(BridgeConfig::BuiltIn { bridge: BuiltInBridge::Obfs4 })));
    assert!(c.proxy_config.is_none());
    assert_eq!(c.firewall_config.as_ref().unwrap().allowed_ports_string(), "443");
}

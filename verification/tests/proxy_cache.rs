//! Tests of the persisted API connection mode and its cache encoding.

use tunnel_state_machine::net::{Ipv4Address, SocketAddress};
use tunnel_state_machine::proxy::{
    ApiConnection, ApiConnectionMode, CacheError, ProxyConfig, ShadowsocksProxySettings,
};

fn proxied_mode() -> ApiConnectionMode {
    ApiConnectionMode::Proxied(ProxyConfig::Shadowsocks(ShadowsocksProxySettings {
        peer: SocketAddress {
            ip: Ipv4Address { o0: 192, o1: 168, o2: 1, o3: 7 },
            port: 443,
        },
        password: b"correct horse".to_vec(),
        cipher: b"aes-256-gcm".to_vec(),
    }))
}

#[test]
fn missing_cache_reads_direct() {
    assert_eq!(ApiConnectionMode::try_from_cache(None), ApiConnectionMode::Direct);
    assert_eq!(ApiConnectionMode::from_cache(None), Ok(ApiConnectionMode::Direct));
}

#[test]
fn direct_round_trip() {
    let bytes = ApiConnectionMode::Direct.encode().expect("direct mode always encodes");
    assert_eq!(bytes, vec![0u8]);
    assert_eq!(ApiConnectionMode::try_from_cache(Some(&bytes)), ApiConnectionMode::Direct);
}

#[test]
fn proxied_round_trip() {
    let mode = proxied_mode();
    let bytes = mode.encode().expect("short settings always encode");
    assert_eq!(ApiConnectionMode::from_cache(Some(&bytes)), Ok(mode.clone()));
    assert_eq!(ApiConnectionMode::try_from_cache(Some(&bytes)), mode);
}

#[test]
fn encoding_has_exact_layout() {
    let mode = ApiConnectionMode::Proxied(ProxyConfig::Shadowsocks(ShadowsocksProxySettings {
        peer: SocketAddress {
            ip: Ipv4Address { o0: 1, o1: 2, o2: 3, o3: 4 },
            port: 8080,
        },
        password: vec![7, 8],
        cipher: vec![9],
    }));
    let bytes = mode.encode().expect("short settings always encode");
    assert_eq!(bytes, vec![1, 1, 2, 3, 4, 0x90, 0x1F, 2, 0, 7, 8, 1, 0, 9]);
}

#[test]
fn garbage_cache_is_a_decode_error() {
    let garbage = vec![9u8, 9, 9];
    assert_eq!(
        ApiConnectionMode::from_cache(Some(&garbage)),
        Err(CacheError::DecodeFailed),
    );
    assert_eq!(ApiConnectionMode::try_from_cache(Some(&garbage)), ApiConnectionMode::Direct);

    let truncated = vec![1u8, 1, 2, 3, 4, 0x90, 0x1F, 2, 0, 7];
    assert_eq!(
        ApiConnectionMode::from_cache(Some(&truncated)),
        Err(CacheError::DecodeFailed),
    );
}

#[test]
fn overlong_password_does_not_encode() {
    let mode = ApiConnectionMode::Proxied(ProxyConfig::Shadowsocks(ShadowsocksProxySettings {
        peer: SocketAddress {
            ip: Ipv4Address { o0: 1, o1: 2, o2: 3, o3: 4 },
            port: 443,
        },
        password: vec![0u8; 70000],
        cipher: b"aes-256-gcm".to_vec(),
    }));
    assert_eq!(mode.encode(), None);
}

#[test]
fn endpoint_and_proxy_flags() {
    assert_eq!(ApiConnectionMode::Direct.get_endpoint(), None);
    assert!(!ApiConnectionMode::Direct.is_proxy());
    let mode = proxied_mode();
    assert_eq!(
        mode.get_endpoint(),
        Some(SocketAddress { ip: Ipv4Address { o0: 192, o1: 168, o2: 1, o3: 7 }, port: 443 }),
    );
    assert!(mode.is_proxy());
}

#[test]
fn api_connection_carries_its_transport() {
    let conn = ApiConnection::new(Box::new(42u32));
    assert_eq!(*conn.0, 42u32);
}

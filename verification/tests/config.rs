use std::time::Duration;

use rustls::pki_types::CertificateDer;
use solana_trader_quic_client_rust::config::{
    DEFAULT_ENDPOINT_PORT, QUIC_MAX_PAYLOAD_BYTES, QUIC_SUBMIT_ALPN,
};
use solana_trader_quic_client_rust::identity::PrivateKeyDer;
use solana_trader_quic_client_rust::{
    TraderApiQuicClient, TraderApiQuicClientConfig, TraderApiQuicClientError,
};

fn section(label: &str, body: &str) -> String {
    format!("-----BEGIN {label}-----\n{body}\n-----END {label}-----\n")
}

fn sample() -> TraderApiQuicClientConfig {
    TraderApiQuicClientConfig::new(
        "localhost:4433".into(),
        vec![CertificateDer::from(vec![1, 2, 3])],
        PrivateKeyDer::Pkcs8(vec![4, 5, 6].into()),
    )
}

#[test]
fn default_config_uses_solana_transaction_limit() {
    let config = TraderApiQuicClientConfig::new(
        "localhost:4433".into(),
        vec![CertificateDer::from(vec![1, 2, 3])],
        PrivateKeyDer::Pkcs8(vec![4, 5, 6].into()),
    );

    assert_eq!(config.endpoint, "localhost:4433");
    assert_eq!(QUIC_MAX_PAYLOAD_BYTES, 1232);
    assert_eq!(QUIC_SUBMIT_ALPN, "solana-trader-submit-v1");
}

#[test]
fn new_config_has_the_default_timeouts() {
    let config = sample();
    assert_eq!(config.connect_timeout, Duration::from_secs(10));
    assert_eq!(config.keep_alive_interval, Some(Duration::from_secs(5)));
    assert_eq!(config.idle_timeout, Some(Duration::from_secs(30)));
    assert_eq!(config.client_certificate_chain, vec![CertificateDer::from(vec![1, 2, 3])]);
    assert_eq!(config.client_private_key, PrivateKeyDer::Pkcs8(vec![4, 5, 6].into()));
    assert_eq!(DEFAULT_ENDPOINT_PORT, 443);
}

#[test]
fn each_setter_changes_its_own_field_only() {
    let config = sample()
        .with_connect_timeout(Duration::from_millis(7))
        .with_keep_alive_interval(None)
        .with_idle_timeout(Some(Duration::from_millis(9)));
    assert_eq!(config.connect_timeout, Duration::from_millis(7));
    assert_eq!(config.keep_alive_interval, None);
    assert_eq!(config.idle_timeout, Some(Duration::from_millis(9)));
    assert_eq!(config.endpoint, "localhost:4433");

    let config = config
        .with_client_identity(vec![CertificateDer::from(vec![9])], PrivateKeyDer::Sec1(vec![8].into()))
        .with_idle_timeout(None);
    assert_eq!(config.client_certificate_chain, vec![CertificateDer::from(vec![9])]);
    assert_eq!(config.client_private_key, PrivateKeyDer::Sec1(vec![8].into()));
    assert_eq!(config.connect_timeout, Duration::from_millis(7));
    assert_eq!(config.idle_timeout, None);
}

#[test]
fn config_from_pem_takes_all_certificates_and_the_first_key() {
    let chain = section("CERTIFICATE", "AQID") + &section("CERTIFICATE", "BA==");
    let key = section("EC PRIVATE KEY", "BQY=") + &section("PRIVATE KEY", "Bw==");
    let config =
        TraderApiQuicClientConfig::new_from_pem("ny.example", chain.as_bytes(), key.as_bytes())
            .unwrap();
    assert_eq!(config.endpoint, "ny.example");
    assert_eq!(
        config.client_certificate_chain,
        vec![CertificateDer::from(vec![1, 2, 3]), CertificateDer::from(vec![4])]
    );
    assert_eq!(config.client_private_key, PrivateKeyDer::Sec1(vec![5, 6].into()));
    assert_eq!(config.connect_timeout, Duration::from_secs(10));
}

#[test]
fn fault_in_the_chain_is_reported_before_one_in_the_key() {
    let made = TraderApiQuicClientConfig::new_from_pem("host", b"", b"");
    assert!(matches!(
        made,
        Err(TraderApiQuicClientError::Pem(text)) if text == "no certificates found in PEM input"
    ));

    let chain = section("CERTIFICATE", "AQID");
    let made = TraderApiQuicClientConfig::new_from_pem("host", chain.as_bytes(), b"");
    assert!(matches!(
        made,
        Err(TraderApiQuicClientError::Pem(text)) if text == "no private key found in PEM input"
    ));
}

#[test]
fn unreadable_files_are_reported_before_what_files_hold() {
    let missing = || std::io::Error::from(std::io::ErrorKind::NotFound);
    let refused = || std::io::Error::from(std::io::ErrorKind::PermissionDenied);

    let made =
        TraderApiQuicClientConfig::new_from_pem_files("host", Err(missing()), Err(refused()));
    assert!(matches!(
        made,
        Err(TraderApiQuicClientError::Endpoint(error))
            if error.kind() == std::io::ErrorKind::NotFound
    ));

    let made = TraderApiQuicClientConfig::new_from_pem_files("host", Ok(vec![]), Err(refused()));
    assert!(matches!(
        made,
        Err(TraderApiQuicClientError::Endpoint(error))
            if error.kind() == std::io::ErrorKind::PermissionDenied
    ));

    let chain = section("CERTIFICATE", "AQID").into_bytes();
    let key = section("RSA PRIVATE KEY", "CAk=").into_bytes();
    let config =
        TraderApiQuicClientConfig::new_from_pem_files("host", Ok(chain), Ok(key)).unwrap();
    assert_eq!(config.client_private_key, PrivateKeyDer::Pkcs1(vec![8, 9].into()));
}

#[test]
fn config_from_pem_never_lacks_a_certificate() {
    let chain = section("CERTIFICATE", "AQID");
    let key = section("PRIVATE KEY", "BAUG");
    let config =
        TraderApiQuicClientConfig::new_from_pem("host", chain.as_bytes(), key.as_bytes()).unwrap();
    assert!(TraderApiQuicClient::<()>::connect(config).is_ok());
}

#[test]
fn debug_text_leaves_the_private_key_out() {
    let text = format!("{:?}", sample());
    assert_eq!(
        text,
        "TraderApiQuicClientConfig { endpoint: \"localhost:4433\", connect_timeout: 10s, \
         keep_alive_interval: Some(5s), idle_timeout: Some(30s), \
         client_certificate_chain: [CertificateDer(0x010203)], \
         client_private_key: Pkcs8(PrivatePkcs8KeyDer(\"[secret key elided]\")) }"
    );
    let outside = rustls::pki_types::PrivateKeyDer::Sec1(vec![4, 5, 6].into());
    let inside = PrivateKeyDer::Sec1(vec![4, 5, 6].into());
    assert_eq!(format!("{inside:?}"), format!("{outside:?}"));
}

use std::sync::Arc;
use std::time::Duration;

use rustls::pki_types::CertificateDer;
use solana_trader_quic_client_rust::connect::{
    dialed, ready_to_dial, DialOutcome, NextStep, Resolving,
};
use solana_trader_quic_client_rust::endpoint::{
    IpAddress, IpLiteral, Literals, Server, SocketAddress,
};
use solana_trader_quic_client_rust::identity::PrivateKeyDer;
use solana_trader_quic_client_rust::settings::{
    client_config, join_sides, offer_submission, pair_with_transport, tls_config,
    transport_config,
};
use solana_trader_quic_client_rust::{
    TraderApiQuicClient, TraderApiQuicClientConfig, TraderApiQuicClientError,
};

/// A self-signed Ed25519 certificate for the key below.
fn certificate() -> CertificateDer<'static> {
    CertificateDer::from(vec![
        0x30, 0x82, 0x01, 0x38, 0x30, 0x81, 0xeb, 0xa0, 0x03, 0x02, 0x01, 0x02,
        0x02, 0x14, 0x29, 0x7b, 0x57, 0xca, 0xe5, 0x4d, 0xfb, 0xd3, 0x8c, 0xe9,
        0x60, 0x7b, 0xbb, 0xb4, 0x61, 0x5c, 0xf5, 0x13, 0xe5, 0x4f, 0x30, 0x05,
        0x06, 0x03, 0x2b, 0x65, 0x70, 0x30, 0x11, 0x31, 0x0f, 0x30, 0x0d, 0x06,
        0x03, 0x55, 0x04, 0x03, 0x0c, 0x06, 0x63, 0x6c, 0x69, 0x65, 0x6e, 0x74,
        0x30, 0x20, 0x17, 0x0d, 0x32, 0x36, 0x31, 0x31, 0x31, 0x36, 0x31, 0x36,
        0x30, 0x36, 0x35, 0x32, 0x5a, 0x18, 0x0f, 0x32, 0x31, 0x32, 0x36, 0x31,
        0x30, 0x32, 0x33, 0x31, 0x36, 0x30, 0x36, 0x35, 0x32, 0x5a, 0x30, 0x11,
        0x31, 0x0f, 0x30, 0x0d, 0x06, 0x03, 0x55, 0x04, 0x03, 0x0c, 0x06, 0x63,
        0x6c, 0x69, 0x65, 0x6e, 0x74, 0x30, 0x2a, 0x30, 0x05, 0x06, 0x03, 0x2b,
        0x65, 0x70, 0x03, 0x21, 0x00, 0xf5, 0xed, 0x10, 0xc4, 0x5f, 0xaa, 0x7c,
        0x3e, 0xfb, 0xdb, 0xc3, 0xe8, 0xe5, 0x0c, 0x82, 0xd0, 0x20, 0x0c, 0x2a,
        0x30, 0xd7, 0xeb, 0x4c, 0x21, 0x94, 0xa2, 0x48, 0x8c, 0x4b, 0xa8, 0x10,
        0x24, 0xa3, 0x53, 0x30, 0x51, 0x30, 0x1d, 0x06, 0x03, 0x55, 0x1d, 0x0e,
        0x04, 0x16, 0x04, 0x14, 0xf0, 0xe9, 0xa4, 0x12, 0x8c, 0x4c, 0xd5, 0xad,
        0x41, 0x6d, 0x2d, 0xf8, 0xa2, 0x9b, 0xd3, 0xca, 0x2f, 0x54, 0x3f, 0x8e,
        0x30, 0x1f, 0x06, 0x03, 0x55, 0x1d, 0x23, 0x04, 0x18, 0x30, 0x16, 0x80,
        0x14, 0xf0, 0xe9, 0xa4, 0x12, 0x8c, 0x4c, 0xd5, 0xad, 0x41, 0x6d, 0x2d,
        0xf8, 0xa2, 0x9b, 0xd3, 0xca, 0x2f, 0x54, 0x3f, 0x8e, 0x30, 0x0f, 0x06,
        0x03, 0x55, 0x1d, 0x13, 0x01, 0x01, 0xff, 0x04, 0x05, 0x30, 0x03, 0x01,
        0x01, 0xff, 0x30, 0x05, 0x06, 0x03, 0x2b, 0x65, 0x70, 0x03, 0x41, 0x00,
        0xb0, 0x50, 0xe6, 0x18, 0xf9, 0x91, 0x7b, 0x60, 0x90, 0x2d, 0x81, 0x28,
        0x4b, 0x8d, 0x54, 0xe0, 0x2b, 0xb0, 0x73, 0xfd, 0x0c, 0xe8, 0x85, 0x1e,
        0x1e, 0x83, 0x33, 0xb9, 0x28, 0x09, 0x48, 0x58, 0xbf, 0xab, 0x64, 0xf8,
        0xd5, 0xe7, 0xfe, 0x3d, 0x05, 0xaf, 0x8c, 0x66, 0xb6, 0xe4, 0xe2, 0x7a,
        0x06, 0x44, 0x13, 0xda, 0x35, 0x16, 0x11, 0x70, 0xa7, 0x0f, 0x0c, 0x29,
        0xd3, 0xbc, 0xea, 0x0d,
    ])
}

/// An Ed25519 key that belongs to nobody.
fn key() -> PrivateKeyDer {
    PrivateKeyDer::Pkcs8(vec![
        0x30, 0x2e, 0x02, 0x01, 0x00, 0x30, 0x05, 0x06, 0x03, 0x2b, 0x65, 0x70,
        0x04, 0x22, 0x04, 0x20, 0x60, 0x12, 0x3a, 0x43, 0xb8, 0xee, 0x8d, 0x44,
        0x99, 0x6f, 0x18, 0x5e, 0xef, 0x57, 0x3b, 0xf8, 0xe4, 0xe6, 0x58, 0x4b,
        0x53, 0x8f, 0x84, 0x0f, 0x8c, 0xd1, 0xb6, 0xa5, 0x21, 0x78, 0x4c, 0x26,
    ].into())
}

fn config(endpoint: &str) -> TraderApiQuicClientConfig {
    TraderApiQuicClientConfig::new(endpoint.to_string(), vec![certificate()], key())
}

/// The first duration in milliseconds that QUIC cannot encode.
fn too_long() -> Duration {
    Duration::from_millis(1 << 62)
}

fn no_address() -> Literals {
    Literals { socket: None, ip: None, bracketed: None }
}

fn start(config: TraderApiQuicClientConfig) -> Resolving {
    TraderApiQuicClient::<()>::connect(config).unwrap()
}

#[test]
fn tls_offers_the_submission_protocol_alone() {
    let tls = tls_config(vec![certificate()], key()).unwrap();
    assert_eq!(tls.alpn_protocols, vec![b"solana-trader-submit-v1".to_vec()]);
    assert!(tls.client_auth_cert_resolver.has_certs());
}

#[test]
fn submission_is_offered_unless_tls_refused() {
    let made = rustls::ClientConfig::builder()
        .with_root_certificates(rustls::RootCertStore::empty())
        .with_no_client_auth();
    let offering = offer_submission(Ok(made)).unwrap();
    assert_eq!(offering.alpn_protocols, vec![b"solana-trader-submit-v1".to_vec()]);
    assert!(!offering.client_auth_cert_resolver.has_certs());

    let refusal = rustls::Error::General("refused".to_string());
    assert!(matches!(
        offer_submission(Err(refusal)),
        Err(rustls::Error::General(text)) if text == "refused"
    ));
}

#[test]
fn tls_presents_the_identity() {
    let tls = tls_config(vec![certificate()], key()).unwrap();
    let presented = tls
        .client_auth_cert_resolver
        .resolve(&[], &[rustls::SignatureScheme::ED25519])
        .unwrap();
    assert_eq!(presented.cert.len(), 1);
    assert_eq!(presented.cert[0], certificate());
}

#[test]
fn tls_trusts_the_public_roots() {
    let tls = tls_config(vec![certificate()], key()).unwrap();
    let expected = format!("({} roots)", webpki_roots::TLS_SERVER_ROOTS.len());
    assert!(format!("{tls:?}").contains(&expected));
}

#[test]
fn key_that_is_none_is_refused_by_tls() {
    assert!(tls_config(vec![certificate()], PrivateKeyDer::Pkcs8(vec![4, 5, 6].into())).is_err());
    assert!(tls_config(vec![CertificateDer::from(vec![1, 2, 3])], key()).is_err());
}

#[test]
fn transport_gets_the_requested_timeouts() {
    let transport =
        transport_config(Some(Duration::from_secs(5)), Some(Duration::from_micros(7_999))).unwrap();
    let text = format!("{transport:?}");
    assert!(text.contains("keep_alive_interval: Some(5s)"));
    assert!(text.contains("max_idle_timeout: Some(7)"));
}

#[test]
fn transport_without_an_idle_timeout_keeps_its_own() {
    let transport = transport_config(None, None).unwrap();
    let text = format!("{transport:?}");
    assert!(text.contains("keep_alive_interval: None"));
    assert!(text.contains("max_idle_timeout: Some(30000)"));
}

#[test]
fn idle_timeout_is_bounded() {
    let longest = too_long() - Duration::from_nanos(1);
    assert!(transport_config(None, Some(longest)).is_ok());
    assert!(matches!(
        transport_config(None, Some(too_long())),
        Err(TraderApiQuicClientError::InvalidIdleTimeout(text))
            if text == "value too large for varint encoding"
    ));
}

#[test]
fn refusal_by_tls_is_reported_before_the_idle_timeout() {
    let refusal = rustls::Error::General("refused".to_string());
    assert!(matches!(
        pair_with_transport(Err(refusal), None, Some(too_long())),
        Err(TraderApiQuicClientError::Rustls(rustls::Error::General(text))) if text == "refused"
    ));
    let tls = tls_config(vec![certificate()], key());
    assert!(matches!(
        pair_with_transport(tls, None, Some(too_long())),
        Err(TraderApiQuicClientError::InvalidIdleTimeout(_))
    ));
    let tls = tls_config(vec![certificate()], key());
    assert!(pair_with_transport(tls, None, None).is_ok());
}

#[test]
fn provider_without_the_initial_suite_is_invalid_crypto() {
    let mut provider = rustls::crypto::ring::default_provider();
    provider.cipher_suites =
        vec![rustls::crypto::ring::cipher_suite::TLS13_CHACHA20_POLY1305_SHA256];
    let tls = rustls::ClientConfig::builder_with_provider(Arc::new(provider))
        .with_safe_default_protocol_versions()
        .unwrap()
        .with_root_certificates(rustls::RootCertStore::empty())
        .with_no_client_auth();
    let crypto = quinn::crypto::rustls::QuicClientConfig::try_from(tls);
    assert!(crypto.is_err());
    assert!(matches!(
        join_sides(crypto, quinn::TransportConfig::default()),
        Err(TraderApiQuicClientError::InvalidCrypto(text))
            if text == "no initial cipher suite found"
    ));
}

#[test]
fn client_config_has_the_requested_transport() {
    let made = client_config(
        config("host")
            .with_keep_alive_interval(Some(Duration::from_secs(2)))
            .with_idle_timeout(Some(Duration::from_secs(3))),
    );
    let text = format!("{:?}", made.unwrap());
    assert!(text.contains("keep_alive_interval: Some(2s)"));
    assert!(text.contains("max_idle_timeout: Some(3000)"));
}

#[test]
fn client_config_reports_what_is_refused() {
    let made = client_config(config("host").with_idle_timeout(Some(too_long())));
    assert!(matches!(made, Err(TraderApiQuicClientError::InvalidIdleTimeout(_))));

    let made = client_config(
        config("host")
            .with_client_identity(vec![certificate()], PrivateKeyDer::Pkcs1(vec![1].into()))
            .with_idle_timeout(Some(too_long())),
    );
    assert!(matches!(made, Err(TraderApiQuicClientError::Rustls(_))));
}

#[test]
fn missing_certificate_is_reported_before_anything_else() {
    let config = config(":no port").with_client_identity(vec![], key());
    assert!(matches!(
        TraderApiQuicClient::<()>::connect(config),
        Err(TraderApiQuicClientError::MissingClientCertificate)
    ));
}

#[test]
fn address_is_dialed_at_once() {
    let literal = IpLiteral { ip: IpAddress::V4(0x0a00_0001), text: "10.0.0.1".to_string() };
    let literals = Literals { socket: None, ip: Some(literal), bracketed: None };
    match start(config("10.0.0.1")).resolve(literals).unwrap() {
        NextStep::Dial(dialing) => {
            let address = SocketAddress::new(IpAddress::V4(0x0a00_0001), 443);
            assert_eq!(dialing.server, Server { address, name: "10.0.0.1".to_string() });
            assert_eq!(dialing.local_address, SocketAddress::new(IpAddress::V6(0), 0));
            assert_eq!(dialing.connect_timeout, Duration::from_secs(10));
            assert!(format!("{:?}", dialing.client_config).contains("Some(30000)"));
        }
        NextStep::LookUp(_) => panic!("an address needs no look-up"),
    }
}

#[test]
fn host_is_looked_up_and_then_dialed() {
    let look_up = |endpoint: &str| match start(config(endpoint)).resolve(no_address()).unwrap() {
        NextStep::LookUp(step) => step,
        NextStep::Dial(_) => panic!("a host has to be looked up"),
    };
    let step = look_up("host:9000");
    assert_eq!((step.host.as_str(), step.port), ("host", 9000));
    let address = SocketAddress::new(IpAddress::V6(1), 9000);
    let dialing = step.resolve(Ok(vec![address])).unwrap();
    assert_eq!(dialing.server, Server { address, name: "host".to_string() });

    assert!(matches!(
        look_up("host").resolve(Ok(vec![])),
        Err(TraderApiQuicClientError::InvalidEndpoint(text)) if text == "host: no addresses found"
    ));
}

#[test]
fn endpoint_is_reported_before_the_settings() {
    let config = config(":1").with_idle_timeout(Some(too_long()));
    assert!(matches!(
        start(config).resolve(no_address()),
        Err(TraderApiQuicClientError::InvalidEndpoint(text)) if text == ":1: missing host"
    ));
}

#[test]
fn refused_settings_are_not_dialed() {
    let server = Server {
        address: SocketAddress::new(IpAddress::V4(1), 443),
        name: "host".to_string(),
    };
    let refused = ready_to_dial(
        server,
        Duration::from_secs(1),
        Err(TraderApiQuicClientError::MissingClientCertificate),
    );
    assert!(matches!(refused, Err(TraderApiQuicClientError::MissingClientCertificate)));
}

#[test]
fn dial_gives_a_client_or_its_error() {
    let timeout = Duration::from_millis(1500);
    assert_eq!(dialed(timeout, DialOutcome::Connected(7u8)).unwrap().connection, 7);
    assert!(matches!(
        dialed::<()>(timeout, DialOutcome::TimedOut),
        Err(TraderApiQuicClientError::ConnectTimeout(found)) if found == timeout
    ));
    let busy = std::io::Error::from(std::io::ErrorKind::AddrInUse);
    assert!(matches!(
        dialed::<()>(timeout, DialOutcome::SocketFailed(busy)),
        Err(TraderApiQuicClientError::Endpoint(error))
            if error.kind() == std::io::ErrorKind::AddrInUse
    ));
    assert!(matches!(
        dialed::<()>(timeout, DialOutcome::NotStarted(quinn::ConnectError::EndpointStopping)),
        Err(TraderApiQuicClientError::Connect(quinn::ConnectError::EndpointStopping))
    ));
    assert!(matches!(
        dialed::<()>(timeout, DialOutcome::Failed(quinn::ConnectionError::Reset)),
        Err(TraderApiQuicClientError::Connection(quinn::ConnectionError::Reset))
    ));
}

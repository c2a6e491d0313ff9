use std::time::Duration;

use solana_trader_quic_client_rust::error::timeout_message;
use solana_trader_quic_client_rust::TraderApiQuicClientError;

#[test]
fn timeout_is_named_in_its_message() {
    assert_eq!(timeout_message("10s"), "timed out while connecting after 10s");
}

#[test]
fn messages_of_the_client_itself() {
    let message = |error: TraderApiQuicClientError| error.message();
    assert_eq!(
        message(TraderApiQuicClientError::MissingClientCertificate),
        "missing client certificate chain"
    );
    assert_eq!(
        message(TraderApiQuicClientError::InvalidEndpoint("x: missing host".to_string())),
        "invalid endpoint: x: missing host"
    );
    assert_eq!(
        message(TraderApiQuicClientError::TransactionTooLarge { actual: 1233, maximum: 1232 }),
        "transaction payload is too large: got 1233 bytes, max 1232 bytes"
    );
    assert_eq!(
        message(TraderApiQuicClientError::TransactionTooLarge { actual: usize::MAX, maximum: 0 }),
        format!("transaction payload is too large: got {} bytes, max 0 bytes", usize::MAX)
    );
    assert_eq!(
        message(TraderApiQuicClientError::ConnectTimeout(Duration::from_secs(10))),
        "timed out while connecting after 10s"
    );
    assert_eq!(
        message(TraderApiQuicClientError::ConnectTimeout(Duration::from_millis(1500))),
        "timed out while connecting after 1.5s"
    );
    assert_eq!(
        message(TraderApiQuicClientError::Pem("broken".to_string())),
        "failed to parse PEM data: broken"
    );
    assert_eq!(
        message(TraderApiQuicClientError::InvalidIdleTimeout("too long".to_string())),
        "invalid idle timeout: too long"
    );
    assert_eq!(
        message(TraderApiQuicClientError::InvalidCrypto("no suite".to_string())),
        "invalid QUIC crypto configuration: no suite"
    );
}

#[test]
fn errors_beneath_keep_their_text() {
    let rustls_error = rustls::Error::General("refused".to_string());
    let text = rustls_error.to_string();
    assert_eq!(TraderApiQuicClientError::from(rustls_error).message(), text);

    let io_error = std::io::Error::new(std::io::ErrorKind::Other, "no such file");
    assert_eq!(TraderApiQuicClientError::from(io_error).message(), "no such file");

    let text = quinn::ConnectError::EndpointStopping.to_string();
    let error = TraderApiQuicClientError::from(quinn::ConnectError::EndpointStopping);
    assert_eq!(error.message(), text);

    let error = TraderApiQuicClientError::from(quinn::ConnectionError::TimedOut);
    assert_eq!(error.message(), "timed out");

    let error = TraderApiQuicClientError::from(quinn::WriteError::ClosedStream);
    assert_eq!(error.message(), "closed stream");

    let error = TraderApiQuicClientError::from(quinn::ClosedStream::default());
    assert_eq!(error.message(), "closed stream");

    let text = quinn::ReadToEndError::TooLong.to_string();
    let error = TraderApiQuicClientError::from(quinn::ReadToEndError::TooLong);
    assert_eq!(error.message(), text);

    let text = quinn::SendDatagramError::TooLarge.to_string();
    let error = TraderApiQuicClientError::from(quinn::SendDatagramError::TooLarge);
    assert_eq!(error.message(), text);
}

#[test]
fn number_that_quic_cannot_encode_is_an_invalid_idle_timeout() {
    let error = TraderApiQuicClientError::from(quinn::VarIntBoundsExceeded);
    assert_eq!(error.message(), "invalid idle timeout: value too large for varint encoding");
}

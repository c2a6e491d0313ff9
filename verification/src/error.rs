//! The errors of the client, and how the errors of the crates beneath become one of them.

use std::time::Duration;

use vstd::prelude::*;
use vstd::string::*;

use crate::outside;
use crate::text;

verus! {

/// Why a client could not be configured, connected or used.
#[derive(Debug)]
pub enum TraderApiQuicClientError {
    /// The configuration holds no client certificate.
    MissingClientCertificate,
    /// The endpoint does not name a server that can be reached.
    InvalidEndpoint(String),
    /// The transaction is longer than what may be submitted.
    TransactionTooLarge { actual: usize, maximum: usize },
    /// The connection was not established in time.
    ConnectTimeout(Duration),
    /// PEM data could not be used.
    Pem(String),
    /// The TLS configuration was refused.
    Rustls(rustls::Error),
    /// A file could not be read, or the local socket not be opened.
    Endpoint(std::io::Error),
    /// The connection attempt could not be started.
    Connect(quinn::ConnectError),
    /// The connection failed.
    Connection(quinn::ConnectionError),
    /// The transaction could not be written.
    Write(quinn::WriteError),
    /// The stream could not be finished.
    Finish(quinn::ClosedStream),
    /// The response could not be read.
    ReadToEnd(quinn::ReadToEndError),
    /// The datagram could not be sent.
    Datagram(quinn::SendDatagramError),
    /// The idle timeout is out of range.
    InvalidIdleTimeout(String),
    /// The TLS configuration cannot be used for QUIC.
    InvalidCrypto(String),
}

impl From<rustls::Error> for TraderApiQuicClientError {
    fn from(error: rustls::Error) -> (wrapped: Self) {
        TraderApiQuicClientError::Rustls(error)
    }
}

impl vstd::std_specs::convert::FromSpecImpl<rustls::Error> for TraderApiQuicClientError {
    open spec fn obeys_from_spec() -> bool {
        true
    }

    open spec fn from_spec(error: rustls::Error) -> Self {
        TraderApiQuicClientError::Rustls(error)
    }
}

impl From<std::io::Error> for TraderApiQuicClientError {
    fn from(error: std::io::Error) -> (wrapped: Self) {
        TraderApiQuicClientError::Endpoint(error)
    }
}

impl vstd::std_specs::convert::FromSpecImpl<std::io::Error> for TraderApiQuicClientError {
    open spec fn obeys_from_spec() -> bool {
        true
    }

    open spec fn from_spec(error: std::io::Error) -> Self {
        TraderApiQuicClientError::Endpoint(error)
    }
}

impl From<quinn::ConnectError> for TraderApiQuicClientError {
    fn from(error: quinn::ConnectError) -> (wrapped: Self) {
        TraderApiQuicClientError::Connect(error)
    }
}

impl vstd::std_specs::convert::FromSpecImpl<quinn::ConnectError> for TraderApiQuicClientError {
    open spec fn obeys_from_spec() -> bool {
        true
    }

    open spec fn from_spec(error: quinn::ConnectError) -> Self {
        TraderApiQuicClientError::Connect(error)
    }
}

impl From<quinn::ConnectionError> for TraderApiQuicClientError {
    fn from(error: quinn::ConnectionError) -> (wrapped: Self) {
        TraderApiQuicClientError::Connection(error)
    }
}

impl vstd::std_specs::convert::FromSpecImpl<quinn::ConnectionError> for TraderApiQuicClientError {
    open spec fn obeys_from_spec() -> bool {
        true
    }

    open spec fn from_spec(error: quinn::ConnectionError) -> Self {
        TraderApiQuicClientError::Connection(error)
    }
}

impl From<quinn::WriteError> for TraderApiQuicClientError {
    fn from(error: quinn::WriteError) -> (wrapped: Self) {
        TraderApiQuicClientError::Write(error)
    }
}

impl vstd::std_specs::convert::FromSpecImpl<quinn::WriteError> for TraderApiQuicClientError {
    open spec fn obeys_from_spec() -> bool {
        true
    }

    open spec fn from_spec(error: quinn::WriteError) -> Self {
        TraderApiQuicClientError::Write(error)
    }
}

impl From<quinn::ClosedStream> for TraderApiQuicClientError {
    fn from(error: quinn::ClosedStream) -> (wrapped: Self) {
        TraderApiQuicClientError::Finish(error)
    }
}

impl vstd::std_specs::convert::FromSpecImpl<quinn::ClosedStream> for TraderApiQuicClientError {
    open spec fn obeys_from_spec() -> bool {
        true
    }

    open spec fn from_spec(error: quinn::ClosedStream) -> Self {
        TraderApiQuicClientError::Finish(error)
    }
}

impl From<quinn::ReadToEndError> for TraderApiQuicClientError {
    fn from(error: quinn::ReadToEndError) -> (wrapped: Self) {
        TraderApiQuicClientError::ReadToEnd(error)
    }
}

impl vstd::std_specs::convert::FromSpecImpl<quinn::ReadToEndError> for TraderApiQuicClientError {
    open spec fn obeys_from_spec() -> bool {
        true
    }

    open spec fn from_spec(error: quinn::ReadToEndError) -> Self {
        TraderApiQuicClientError::ReadToEnd(error)
    }
}

impl From<quinn::SendDatagramError> for TraderApiQuicClientError {
    fn from(error: quinn::SendDatagramError) -> (wrapped: Self) {
        TraderApiQuicClientError::Datagram(error)
    }
}

impl vstd::std_specs::convert::FromSpecImpl<quinn::SendDatagramError> for TraderApiQuicClientError {
    open spec fn obeys_from_spec() -> bool {
        true
    }

    open spec fn from_spec(error: quinn::SendDatagramError) -> Self {
        TraderApiQuicClientError::Datagram(error)
    }
}

impl From<quinn::VarIntBoundsExceeded> for TraderApiQuicClientError {
    fn from(error: quinn::VarIntBoundsExceeded) -> (wrapped: Self)
        ensures
            is_idle_timeout_error(wrapped),
    {
        TraderApiQuicClientError::InvalidIdleTimeout(outside::varint_error_text(&error))
    }
}

impl vstd::std_specs::convert::FromSpecImpl<quinn::VarIntBoundsExceeded>
    for TraderApiQuicClientError {
    open spec fn obeys_from_spec() -> bool {
        false
    }

    open spec fn from_spec(error: quinn::VarIntBoundsExceeded) -> Self {
        arbitrary()
    }
}

impl From<quinn::crypto::rustls::NoInitialCipherSuite> for TraderApiQuicClientError {
    fn from(error: quinn::crypto::rustls::NoInitialCipherSuite) -> (wrapped: Self)
        ensures
            is_crypto_error(wrapped, outside::suite_was_supplied(error)),
    {
        TraderApiQuicClientError::InvalidCrypto(outside::cipher_suite_error_text(&error))
    }
}

impl vstd::std_specs::convert::FromSpecImpl<quinn::crypto::rustls::NoInitialCipherSuite>
    for TraderApiQuicClientError {
    open spec fn obeys_from_spec() -> bool {
        false
    }

    open spec fn from_spec(error: quinn::crypto::rustls::NoInitialCipherSuite) -> Self {
        arbitrary()
    }
}

/// Whether an error says that an idle timeout is too long to be announced to the peer.
pub open spec fn is_idle_timeout_error(error: TraderApiQuicClientError) -> bool {
    error matches TraderApiQuicClientError::InvalidIdleTimeout(text) && text@
        == "value too large for varint encoding"@
}

/// Whether an error says that a TLS configuration lacks the cipher suite that QUIC starts with,
/// by whether that suite was supplied by the caller.
pub open spec fn is_crypto_error(error: TraderApiQuicClientError, supplied: bool) -> bool {
    error matches TraderApiQuicClientError::InvalidCrypto(text) && text@ == if supplied {
        "invalid cipher suite specified"@
    } else {
        "no initial cipher suite found"@
    }
}

/// Two texts, the second after the first.
fn joined(first: &str, second: &str) -> (text: String)
    ensures
        text@ == first@ + second@,
{
    let mut text = first.to_owned();
    text.append(second);
    text
}

/// What is said of a connection that was not established in time, given the text of that time.
pub fn timeout_message(timeout: &str) -> (message: String)
    ensures
        message@ == "timed out while connecting after "@ + timeout@,
{
    joined("timed out while connecting after ", timeout)
}

impl TraderApiQuicClientError {
    /// The text of the error for a reader.  An error of a crate beneath keeps its own text.
    pub fn message(&self) -> (message: String)
        ensures
            match *self {
                TraderApiQuicClientError::MissingClientCertificate => message@
                    == "missing client certificate chain"@,
                TraderApiQuicClientError::InvalidEndpoint(reason) => message@
                    == "invalid endpoint: "@ + reason@,
                TraderApiQuicClientError::TransactionTooLarge { actual, maximum } => message@
                    == "transaction payload is too large: got "@ + text::decimal_text(
                    actual as nat,
                ) + " bytes, max "@ + text::decimal_text(maximum as nat) + " bytes"@,
                TraderApiQuicClientError::ConnectTimeout(timeout) => message@
                    == "timed out while connecting after "@ + outside::duration_debug_text(
                    outside::duration_nanos(timeout),
                ),
                TraderApiQuicClientError::Pem(reason) => message@ == "failed to parse PEM data: "@
                    + reason@,
                TraderApiQuicClientError::Rustls(error) => to_string_from_display_ensures::<
                    rustls::Error,
                >(&error, message),
                TraderApiQuicClientError::Endpoint(error) => to_string_from_display_ensures::<
                    std::io::Error,
                >(&error, message),
                TraderApiQuicClientError::Connect(error) => to_string_from_display_ensures::<
                    quinn::ConnectError,
                >(&error, message),
                TraderApiQuicClientError::Connection(error) => to_string_from_display_ensures::<
                    quinn::ConnectionError,
                >(&error, message),
                TraderApiQuicClientError::Write(error) => to_string_from_display_ensures::<
                    quinn::WriteError,
                >(&error, message),
                TraderApiQuicClientError::Finish(error) => to_string_from_display_ensures::<
                    quinn::ClosedStream,
                >(&error, message),
                TraderApiQuicClientError::ReadToEnd(error) => to_string_from_display_ensures::<
                    quinn::ReadToEndError,
                >(&error, message),
                TraderApiQuicClientError::Datagram(error) => to_string_from_display_ensures::<
                    quinn::SendDatagramError,
                >(&error, message),
                TraderApiQuicClientError::InvalidIdleTimeout(reason) => message@
                    == "invalid idle timeout: "@ + reason@,
                TraderApiQuicClientError::InvalidCrypto(reason) => message@
                    == "invalid QUIC crypto configuration: "@ + reason@,
            },
    {
        match self {
            TraderApiQuicClientError::MissingClientCertificate => {
                "missing client certificate chain".to_owned()
            },
            TraderApiQuicClientError::InvalidEndpoint(reason) => {
                joined("invalid endpoint: ", reason.as_str())
            },
            TraderApiQuicClientError::TransactionTooLarge { actual, maximum } => {
                let mut message = joined(
                    "transaction payload is too large: got ",
                    text::decimal(*actual).as_str(),
                );
                message.append(" bytes, max ");
                message.append(text::decimal(*maximum).as_str());
                message.append(" bytes");
                message
            },
            TraderApiQuicClientError::ConnectTimeout(timeout) => {
                timeout_message(outside::duration_text(timeout).as_str())
            },
            TraderApiQuicClientError::Pem(reason) => {
                joined("failed to parse PEM data: ", reason.as_str())
            },
            TraderApiQuicClientError::Rustls(error) => error.to_string(),
            TraderApiQuicClientError::Endpoint(error) => error.to_string(),
            TraderApiQuicClientError::Connect(error) => error.to_string(),
            TraderApiQuicClientError::Connection(error) => error.to_string(),
            TraderApiQuicClientError::Write(error) => error.to_string(),
            TraderApiQuicClientError::Finish(error) => error.to_string(),
            TraderApiQuicClientError::ReadToEnd(error) => error.to_string(),
            TraderApiQuicClientError::Datagram(error) => error.to_string(),
            TraderApiQuicClientError::InvalidIdleTimeout(reason) => {
                joined("invalid idle timeout: ", reason.as_str())
            },
            TraderApiQuicClientError::InvalidCrypto(reason) => {
                joined("invalid QUIC crypto configuration: ", reason.as_str())
            },
        }
    }
}

/// An error about an idle timeout or a cipher suite holds the text of the crate beneath, and
/// nothing else does.
pub proof fn settings_errors_hold_their_text(error: TraderApiQuicClientError)
    ensures
        is_idle_timeout_error(error) <==> (error matches TraderApiQuicClientError::InvalidIdleTimeout(
            text,
        ) && text@ == "value too large for varint encoding"@),
        is_crypto_error(error, false) <==> (error matches TraderApiQuicClientError::InvalidCrypto(
            text,
        ) && text@ == "no initial cipher suite found"@),
        is_crypto_error(error, true) <==> (error matches TraderApiQuicClientError::InvalidCrypto(
            text,
        ) && text@ == "invalid cipher suite specified"@),
{
}

} // verus!

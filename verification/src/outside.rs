//! What the library takes from outside: the types of other crates that it carries, and the calls
//! that it makes into them and into parts of std that come without a contract.
//!
//! Nothing in this file is proved.  Every proof of the library that reaches one of these items
//! rests on the clauses written here.

use std::time::Duration;

use rustls::pki_types::{
    CertificateDer, PrivatePkcs1KeyDer, PrivatePkcs8KeyDer, PrivateSec1KeyDer, TrustAnchor,
};
use rustls_pemfile::Item;
use vstd::prelude::*;

use crate::identity;
use crate::identity::{PrivateKeyDer, PrivateKeyModel};
use crate::pem;
use crate::pem::{PemItem, PemSection};
use crate::text;

verus! {

// ---------------------------------------------------------------------------------------------
// Errors of other crates, carried through as they come.
// ---------------------------------------------------------------------------------------------
#[verifier::external_type_specification]
#[verifier::external_body]
pub struct ExRustlsError(rustls::Error);

#[verifier::external_type_specification]
#[verifier::external_body]
pub struct ExIoError(std::io::Error);

#[verifier::external_type_specification]
#[verifier::external_body]
pub struct ExConnectError(quinn::ConnectError);

#[verifier::external_type_specification]
#[verifier::external_body]
pub struct ExConnectionError(quinn::ConnectionError);

#[verifier::external_type_specification]
#[verifier::external_body]
pub struct ExWriteError(quinn::WriteError);

#[verifier::external_type_specification]
#[verifier::external_body]
pub struct ExClosedStream(quinn::ClosedStream);

#[verifier::external_type_specification]
#[verifier::external_body]
pub struct ExReadToEndError(quinn::ReadToEndError);

#[verifier::external_type_specification]
#[verifier::external_body]
pub struct ExSendDatagramError(quinn::SendDatagramError);

#[verifier::external_type_specification]
#[verifier::external_body]
pub struct ExVarIntBoundsExceeded(quinn::VarIntBoundsExceeded);

#[verifier::external_type_specification]
#[verifier::external_body]
pub struct ExNoInitialCipherSuite(quinn::crypto::rustls::NoInitialCipherSuite);

#[verifier::external_type_specification]
#[verifier::external_body]
pub struct ExDecodeError(base64::DecodeError);

/// The text of quinn's `VarIntBoundsExceeded`.
///
/// Calls `to_string` on it.  The type has no fields, and its `Display` writes one fixed text.
#[verifier::external_body]
pub(crate) fn varint_error_text(error: &quinn::VarIntBoundsExceeded) -> (text: String)
    ensures
        text@ == "value too large for varint encoding"@,
{
    error.to_string()
}

/// Whether a `NoInitialCipherSuite` is about a cipher suite that the caller supplied, rather than
/// one that was looked for in a TLS configuration.
pub uninterp spec fn suite_was_supplied(error: quinn::crypto::rustls::NoInitialCipherSuite) -> bool;

/// The text of quinn's `NoInitialCipherSuite`.
///
/// Calls `to_string` on it.  Its `Display` writes one of two fixed texts, by whether the suite was
/// supplied by the caller.
#[verifier::external_body]
pub(crate) fn cipher_suite_error_text(
    error: &quinn::crypto::rustls::NoInitialCipherSuite,
) -> (text: String)
    ensures
        text@ == if suite_was_supplied(*error) {
            "invalid cipher suite specified"@
        } else {
            "no initial cipher suite found"@
        },
{
    error.to_string()
}

// ---------------------------------------------------------------------------------------------
// std: durations, numbers and text.
// ---------------------------------------------------------------------------------------------
/// The length of a duration in nanoseconds: what `Duration::as_nanos` returns.
pub uninterp spec fn duration_nanos(duration: Duration) -> nat;

/// The length of a duration in whole milliseconds.
pub open spec fn duration_millis(duration: Duration) -> nat {
    duration_nanos(duration) / 1_000_000
}

/// `Duration::from_secs` makes a duration of that many whole seconds.
pub assume_specification[ Duration::from_secs ](secs: u64) -> (duration: Duration)
    ensures
        duration_nanos(duration) == secs as nat * 1_000_000_000,
;

/// What std's `Debug` writes for a duration of so many nanoseconds.
pub uninterp spec fn duration_debug_text(nanos: nat) -> Seq<char>;

/// The `Debug` text of a duration.
///
/// Calls `format!` with `{:?}`.  The text depends on nothing but the length of the duration.
#[verifier::external_body]
pub(crate) fn duration_text(duration: &Duration) -> (text: String)
    ensures
        text@ == duration_debug_text(duration_nanos(*duration)),
{
    format!("{:?}", duration)
}

/// The digits of a port: what is left of its text once one leading `+` is taken off.
pub open spec fn port_digits(text: Seq<char>) -> Seq<char> {
    if text.len() > 0 && text.first() == '+' {
        text.drop_first()
    } else {
        text
    }
}

/// The port that a text stands for: an optional `+` and then digits only, of a value that fits.
pub open spec fn port_value(text: Seq<char>) -> Option<u16> {
    let digits = port_digits(text);
    if digits.len() > 0 && text::all_digits(digits) && text::decimal_value(digits) <= u16::MAX {
        Some(text::decimal_value(digits) as u16)
    } else {
        None
    }
}

/// What std writes of the failure to read a text as a `u16`.
pub uninterp spec fn port_error_text(text: Seq<char>) -> Seq<char>;

/// Reads a port.
///
/// Calls `str::parse::<u16>`, which takes an optional `+` followed by only digits, and fails on
/// everything else and on a number that does not fit.  The error is handed on as its text.
#[verifier::external_body]
pub(crate) fn parse_port(text: &str) -> (port: Result<u16, String>)
    ensures
        match port {
            Ok(port) => port_value(text@) == Some(port),
            Err(error) => port_value(text@) is None && error@ == port_error_text(text@),
        },
{
    text.parse::<u16>().map_err(|error| error.to_string())
}

/// `str::trim` takes off the white space at both ends of a text.
pub assume_specification[ str::trim ](padded: &str) -> (inner: &str)
    ensures
        inner@ == text::trimmed(padded@),
;

#[verifier::external_type_specification]
#[verifier::external_body]
pub struct ExUtf8Error(std::str::Utf8Error);

/// What std says is wrong with bytes that are no UTF-8.
pub uninterp spec fn utf8_error(bytes: Seq<u8>) -> std::str::Utf8Error;

/// `std::str::from_utf8` gives the text that bytes are the UTF-8 of, and fails where they are no
/// UTF-8.  The error depends on nothing but the bytes.
pub assume_specification[ std::str::from_utf8 ](bytes: &[u8]) -> (decoded: Result<
    &str,
    std::str::Utf8Error,
>)
    ensures
        match decoded {
            Ok(decoded) => vstd::utf8::valid_utf8(bytes@) && decoded@ == vstd::utf8::decode_utf8(
                bytes@,
            ),
            Err(error) => !vstd::utf8::valid_utf8(bytes@) && error == utf8_error(bytes@),
        },
;

// ---------------------------------------------------------------------------------------------
// base64.
// ---------------------------------------------------------------------------------------------
/// What base64's standard engine decodes a text to.
pub uninterp spec fn base64_decoded(text: Seq<char>) -> Result<Seq<u8>, base64::DecodeError>;

/// Decodes standard base64.
///
/// Calls `decode` of `base64::engine::general_purpose::STANDARD`, whose result depends on nothing
/// but the text.
#[verifier::external_body]
pub(crate) fn decode_base64(text: &str) -> (decoded: Result<Vec<u8>, base64::DecodeError>)
    ensures
        match decoded {
            Ok(bytes) => base64_decoded(text@) == Ok::<Seq<u8>, base64::DecodeError>(bytes@),
            Err(error) => base64_decoded(text@) == Err::<Seq<u8>, base64::DecodeError>(error),
        },
{
    base64::Engine::decode(&base64::engine::general_purpose::STANDARD, text)
}

// ---------------------------------------------------------------------------------------------
// rustls: encoded certificates and keys.
// ---------------------------------------------------------------------------------------------
#[verifier::external_type_specification]
#[verifier::external_body]
pub struct ExCertificateDer<'a>(CertificateDer<'a>);

#[verifier::external_type_specification]
#[verifier::external_body]
pub struct ExPrivatePkcs1KeyDer<'a>(PrivatePkcs1KeyDer<'a>);

#[verifier::external_type_specification]
#[verifier::external_body]
pub struct ExPrivateSec1KeyDer<'a>(PrivateSec1KeyDer<'a>);

#[verifier::external_type_specification]
#[verifier::external_body]
pub struct ExPrivatePkcs8KeyDer<'a>(PrivatePkcs8KeyDer<'a>);

/// The bytes of an encoded certificate: what its `as_ref` returns.
pub uninterp spec fn certificate_bytes(certificate: CertificateDer<'static>) -> Seq<u8>;

/// The bytes of a key that is encoded by PKCS #1: what its `secret_pkcs1_der` returns.
pub uninterp spec fn pkcs1_bytes(key: PrivatePkcs1KeyDer<'static>) -> Seq<u8>;

/// The bytes of a key that is encoded by SEC1: what its `secret_sec1_der` returns.
pub uninterp spec fn sec1_bytes(key: PrivateSec1KeyDer<'static>) -> Seq<u8>;

/// The bytes of a key that is encoded by PKCS #8: what its `secret_pkcs8_der` returns.
pub uninterp spec fn pkcs8_bytes(key: PrivatePkcs8KeyDer<'static>) -> Seq<u8>;

// ---------------------------------------------------------------------------------------------
// rustls-pemfile.
// ---------------------------------------------------------------------------------------------
/// What rustls-pemfile reads at the start of some PEM data, and the data that it leaves unread.
///
/// The reading is the next section of a kind that it knows, nothing where no section is left, or
/// the text of what is wrong with the data.
pub uninterp spec fn pem_read_one(data: Seq<u8>) -> (
    Result<Option<PemSection>, Seq<char>>,
    Seq<u8>,
);

/// Reads the next section of some PEM data, and gives back the data that follows it.
///
/// Calls `rustls_pemfile::read_one` on the bytes as a reader.  What comes back depends on nothing
/// but the data.  The call takes bytes from the front only, line by line, and it takes at least one
/// where it finds a section.  It does not look beyond the line that ends the section, so what
/// follows whole lines makes no difference to it.
#[verifier::external_body]
pub(crate) fn read_one<'a>(data: &'a [u8]) -> (read: (
    Result<Option<PemItem>, String>,
    &'a [u8],
))
    ensures
        match read.0 {
            Ok(Some(PemItem::X509Certificate(der))) => pem_read_one(data@).0 == Ok::<_, Seq<char>>(
                Some(PemSection::X509Certificate(certificate_bytes(der))),
            ),
            Ok(Some(PemItem::Pkcs1Key(key))) => pem_read_one(data@).0 == Ok::<_, Seq<char>>(
                Some(PemSection::Pkcs1Key(pkcs1_bytes(key))),
            ),
            Ok(Some(PemItem::Pkcs8Key(key))) => pem_read_one(data@).0 == Ok::<_, Seq<char>>(
                Some(PemSection::Pkcs8Key(pkcs8_bytes(key))),
            ),
            Ok(Some(PemItem::Sec1Key(key))) => pem_read_one(data@).0 == Ok::<_, Seq<char>>(
                Some(PemSection::Sec1Key(sec1_bytes(key))),
            ),
            Ok(Some(PemItem::Other)) => pem_read_one(data@).0 == Ok::<_, Seq<char>>(
                Some(PemSection::Other),
            ),
            Ok(None) => pem_read_one(data@).0 == Ok::<_, Seq<char>>(None::<PemSection>),
            Err(error) => pem_read_one(data@).0 == Err::<Option<PemSection>, _>(error@),
        },
        pem_read_one(data@).1 == read.1@,
        read.1@.len() <= data@.len(),
        read.1@ == data@.skip(data@.len() - read.1@.len()),
        read.0 matches Ok(Some(_)) ==> read.1@.len() < data@.len(),
        read.0 matches Ok(Some(_)) ==> pem::ends_line(data@) ==> forall|more: Seq<u8>|
            #[trigger] pem_read_one(data@ + more) == (pem_read_one(data@).0, read.1@ + more),
{
    let mut rest = data;
    let read = match rustls_pemfile::read_one(&mut rest) {
        Ok(Some(Item::X509Certificate(der))) => Ok(Some(PemItem::X509Certificate(der))),
        Ok(Some(Item::Pkcs1Key(key))) => Ok(Some(PemItem::Pkcs1Key(key))),
        Ok(Some(Item::Pkcs8Key(key))) => Ok(Some(PemItem::Pkcs8Key(key))),
        Ok(Some(Item::Sec1Key(key))) => Ok(Some(PemItem::Sec1Key(key))),
        Ok(Some(_)) => Ok(Some(PemItem::Other)),
        Ok(None) => Ok(None),
        Err(error) => Err(error.to_string()),
    };
    (read, rest)
}

/// Reads all certificates of some PEM data.
///
/// Calls `rustls_pemfile::certs` on the bytes as a reader, and collects up to the first error.  It
/// reads section after section as `read_one` does, and keeps the certificates.  Where it comes to the
/// end of whole lines without an error, no section is open there, so that more data would be read as
/// if it stood alone.
#[verifier::external_body]
pub(crate) fn certs(data: &[u8]) -> (certificates: Result<Vec<CertificateDer<'static>>, String>)
    ensures
        match certificates {
            Ok(chain) => {
                &&& pem::document(data@).error is None
                &&& identity::chain_bytes(chain@) == pem::certificates_in(
                    pem::document(data@).sections,
                )
                &&& pem::ends_line(data@) ==> forall|more: Seq<u8>| #[trigger]
                    pem::document(data@ + more) == pem::appended(
                        pem::document(data@),
                        pem::document(more),
                    )
            },
            Err(error) => pem::document(data@).error == Some(error@),
        },
{
    let mut reader = data;
    rustls_pemfile::certs(&mut reader)
        .collect::<Result<Vec<CertificateDer<'static>>, std::io::Error>>()
        .map_err(|error| error.to_string())
}

// ---------------------------------------------------------------------------------------------
// rustls and webpki-roots: the TLS side of a connection.
// ---------------------------------------------------------------------------------------------
#[verifier::external_type_specification]
#[verifier::external_body]
pub struct ExTrustAnchor<'a>(TrustAnchor<'a>);

#[verifier::external_type_specification]
#[verifier::external_body]
pub struct ExRootCertStore(rustls::RootCertStore);

#[verifier::external_type_specification]
#[verifier::external_body]
pub struct ExTlsConfig(rustls::ClientConfig);

/// Whether some trust anchors are those of webpki-roots, in its order.
pub uninterp spec fn are_tls_server_roots(anchors: Seq<TrustAnchor<'static>>) -> bool;

/// The trust anchors that a root store holds, in the order in which they were added.
pub uninterp spec fn root_anchors(store: rustls::RootCertStore) -> Seq<TrustAnchor<'static>>;

/// What a TLS client configuration was made with: the anchors that it trusts, the identity that
/// it presents, and the application protocols that it offers.
pub struct TlsSettings {
    pub roots: Seq<TrustAnchor<'static>>,
    pub chain: Seq<Seq<u8>>,
    pub key: PrivateKeyModel,
    pub alpn_protocols: Seq<Seq<u8>>,
}

/// What a TLS client configuration holds.
pub uninterp spec fn tls_settings(config: rustls::ClientConfig) -> TlsSettings;

/// Whether an error is one with which rustls can refuse a client identity, under one cryptography
/// provider or another.
pub uninterp spec fn can_refuse_identity(
    chain: Seq<Seq<u8>>,
    key: PrivateKeyModel,
    error: rustls::Error,
) -> bool;

/// The trust anchors of webpki-roots.
///
/// Copies the list `webpki_roots::TLS_SERVER_ROOTS`.
#[verifier::external_body]
pub(crate) fn tls_server_roots() -> (anchors: Vec<TrustAnchor<'static>>)
    ensures
        are_tls_server_roots(anchors@),
{
    webpki_roots::TLS_SERVER_ROOTS.to_vec()
}

/// A root store with nothing in it.
///
/// Calls `rustls::RootCertStore::empty`.
#[verifier::external_body]
pub(crate) fn empty_root_store() -> (store: rustls::RootCertStore)
    ensures
        root_anchors(store) == Seq::<TrustAnchor<'static>>::empty(),
{
    rustls::RootCertStore::empty()
}

/// Adds trust anchors to a root store, behind those that it holds.
///
/// Calls `extend` of `rustls::RootCertStore`.
#[verifier::external_body]
pub(crate) fn extend_root_store(
    store: &mut rustls::RootCertStore,
    anchors: Vec<TrustAnchor<'static>>,
)
    ensures
        root_anchors(*final(store)) == root_anchors(*old(store)) + anchors@,
{
    store.extend(anchors)
}

/// Makes a TLS client configuration that trusts the anchors of a root store and presents a
/// client identity.
///
/// Calls `rustls::ClientConfig::builder`, then `with_root_certificates` and
/// `with_client_auth_cert` on what comes back.  The types between these calls are bounded by
/// `rustls::ConfigSide`, a sealed trait without a contract here, so the three stand together.  A
/// new configuration offers no application protocol.
///
/// Whether the identity is accepted is for the cryptography provider of the process to say, so
/// nothing is claimed of when the call fails.  Where it does, the error is about the identity alone:
/// the key cannot be loaded, or the first certificate is missing, cannot be read or is not for that
/// key.  The roots are not looked at.  The call panics where the process has no provider and
/// the features of rustls select none, or where the provider supports no version of TLS; the one
/// that the crate's features select supports them.
#[verifier::external_body]
pub(crate) fn client_auth_config(
    roots: rustls::RootCertStore,
    chain: Vec<CertificateDer<'static>>,
    key: PrivateKeyDer,
) -> (config: Result<rustls::ClientConfig, rustls::Error>)
    ensures
        match config {
            Ok(config) => tls_settings(config) == (TlsSettings {
                roots: root_anchors(roots),
                chain: identity::chain_bytes(chain@),
                key: key@,
                alpn_protocols: Seq::empty(),
            }),
            Err(error) => can_refuse_identity(identity::chain_bytes(chain@), key@, error),
        },
{
    let key = match key {
        PrivateKeyDer::Pkcs1(key) => rustls::pki_types::PrivateKeyDer::Pkcs1(key),
        PrivateKeyDer::Sec1(key) => rustls::pki_types::PrivateKeyDer::Sec1(key),
        PrivateKeyDer::Pkcs8(key) => rustls::pki_types::PrivateKeyDer::Pkcs8(key),
    };
    rustls::ClientConfig::builder()
        .with_root_certificates(roots)
        .with_client_auth_cert(chain, key)
}

/// Sets the application protocols that a TLS client configuration offers.
///
/// Assigns the field `alpn_protocols` of `rustls::ClientConfig`.
#[verifier::external_body]
pub(crate) fn set_alpn_protocols(config: &mut rustls::ClientConfig, protocols: Vec<Vec<u8>>)
    ensures
        tls_settings(*final(config)) == (TlsSettings {
            alpn_protocols: Seq::new(protocols@.len(), |i: int| protocols@[i]@),
            ..tls_settings(*old(config))
        }),
{
    config.alpn_protocols = protocols;
}

// ---------------------------------------------------------------------------------------------
// quinn: the configuration of a QUIC connection.
// ---------------------------------------------------------------------------------------------
#[verifier::external_type_specification]
#[verifier::external_body]
pub struct ExIdleTimeout(quinn::IdleTimeout);

#[verifier::external_type_specification]
#[verifier::external_body]
pub struct ExTransportConfig(quinn::TransportConfig);

#[verifier::external_type_specification]
#[verifier::external_body]
pub struct ExQuicClientConfig(quinn::crypto::rustls::QuicClientConfig);

#[verifier::external_type_specification]
#[verifier::external_body]
pub struct ExClientConfig(quinn::ClientConfig);

/// What a transport configuration was given: how often the connection is kept alive, and after
/// how many idle milliseconds it is given up.
pub struct TransportSettings {
    pub keep_alive_interval: Option<Duration>,
    pub max_idle_timeout: Option<nat>,
}

/// The settings of a transport configuration that was given none.
pub open spec fn default_transport_settings() -> TransportSettings {
    TransportSettings { keep_alive_interval: None, max_idle_timeout: Some(30_000) }
}

/// What a QUIC client configuration holds: its TLS side and its transport side.
pub struct ClientSettings {
    pub tls: TlsSettings,
    pub transport: TransportSettings,
}

/// The length of an idle timeout in milliseconds.
pub uninterp spec fn idle_timeout_millis(timeout: quinn::IdleTimeout) -> nat;

/// What a transport configuration holds.
pub uninterp spec fn transport_settings(config: quinn::TransportConfig) -> TransportSettings;

/// The TLS side of a configuration that was accepted for QUIC.
pub uninterp spec fn quic_tls_settings(
    config: quinn::crypto::rustls::QuicClientConfig,
) -> TlsSettings;

/// What a QUIC client configuration holds.
pub uninterp spec fn client_settings(config: quinn::ClientConfig) -> ClientSettings;

/// The least number that QUIC cannot encode: two to the power of 62.
pub open spec fn varint_bound() -> nat {
    0x4000_0000_0000_0000
}

/// Makes an idle timeout.
///
/// Calls `quinn::IdleTimeout::try_from` on a duration, which takes the whole milliseconds of it and
/// fails where QUIC cannot encode their number.
#[verifier::external_body]
pub(crate) fn idle_timeout(timeout: Duration) -> (idle: Result<
    quinn::IdleTimeout,
    quinn::VarIntBoundsExceeded,
>)
    ensures
        match idle {
            Ok(idle) => duration_millis(timeout) < varint_bound() && idle_timeout_millis(idle)
                == duration_millis(timeout),
            Err(_) => duration_millis(timeout) >= varint_bound(),
        },
{
    quinn::IdleTimeout::try_from(timeout)
}

/// A transport configuration that was given no settings.
///
/// Calls `quinn::TransportConfig::default`.
#[verifier::external_body]
pub(crate) fn default_transport_config() -> (config: quinn::TransportConfig)
    ensures
        transport_settings(config) == default_transport_settings(),
{
    quinn::TransportConfig::default()
}

/// Sets how often a connection is kept alive.
///
/// Calls `keep_alive_interval` of `quinn::TransportConfig`.
#[verifier::external_body]
pub(crate) fn set_keep_alive_interval(
    config: &mut quinn::TransportConfig,
    interval: Option<Duration>,
)
    ensures
        transport_settings(*final(config)) == (TransportSettings {
            keep_alive_interval: interval,
            ..transport_settings(*old(config))
        }),
{
    config.keep_alive_interval(interval);
}

/// Sets after how long an idle connection is given up.
///
/// Calls `max_idle_timeout` of `quinn::TransportConfig`.
#[verifier::external_body]
pub(crate) fn set_max_idle_timeout(
    config: &mut quinn::TransportConfig,
    timeout: Option<quinn::IdleTimeout>,
)
    ensures
        transport_settings(*final(config)) == (TransportSettings {
            max_idle_timeout: match timeout {
                Some(timeout) => Some(idle_timeout_millis(timeout)),
                None => None,
            },
            ..transport_settings(*old(config))
        }),
{
    config.max_idle_timeout(timeout);
}

/// Whether the cryptography provider that a TLS client configuration holds lacks the cipher suite
/// that QUIC starts with.
pub uninterp spec fn lacks_initial_suite(config: rustls::ClientConfig) -> bool;

/// Takes a TLS client configuration for QUIC.
///
/// Calls `quinn::crypto::rustls::QuicClientConfig::try_from`.  It fails exactly where the
/// cryptography provider of the configuration lacks the cipher suite that QUIC starts with.
#[verifier::external_body]
pub(crate) fn quic_client_config(config: rustls::ClientConfig) -> (quic: Result<
    quinn::crypto::rustls::QuicClientConfig,
    quinn::crypto::rustls::NoInitialCipherSuite,
>)
    ensures
        match quic {
            Ok(quic) => !lacks_initial_suite(config) && quic_tls_settings(quic) == tls_settings(
                config,
            ),
            Err(error) => lacks_initial_suite(config) && !suite_was_supplied(error),
        },
{
    quinn::crypto::rustls::QuicClientConfig::try_from(config)
}

/// Makes a QUIC client configuration out of its TLS side.
///
/// Calls `quinn::ClientConfig::new`.  Its transport side is that of a transport configuration
/// that was given no settings.
#[verifier::external_body]
pub(crate) fn new_client_config(
    crypto: quinn::crypto::rustls::QuicClientConfig,
) -> (config: quinn::ClientConfig)
    ensures
        client_settings(config) == (ClientSettings {
            tls: quic_tls_settings(crypto),
            transport: default_transport_settings(),
        }),
{
    quinn::ClientConfig::new(std::sync::Arc::new(crypto))
}

/// Sets the transport side of a QUIC client configuration.
///
/// Calls `transport_config` of `quinn::ClientConfig`.
#[verifier::external_body]
pub(crate) fn set_transport_config(
    config: &mut quinn::ClientConfig,
    transport: quinn::TransportConfig,
)
    ensures
        client_settings(*final(config)) == (ClientSettings {
            transport: transport_settings(transport),
            ..client_settings(*old(config))
        }),
{
    config.transport_config(std::sync::Arc::new(transport));
}

} // verus!

//! The QUIC and TLS settings that a client connects with.

use std::time::Duration;

use rustls::pki_types::CertificateDer;
use vstd::prelude::*;
use vstd::string::*;

use crate::config;
use crate::config::{TraderApiQuicClientConfig, QUIC_SUBMIT_ALPN};
use crate::error;
use crate::error::TraderApiQuicClientError;
use crate::identity;
use crate::identity::PrivateKeyDer;
use crate::outside;
use crate::outside::{ClientSettings, TlsSettings, TransportSettings};

verus! {

/// The application protocols that a client offers: the one for submitting transactions.
pub open spec fn submit_protocols() -> Seq<Seq<u8>> {
    seq![QUIC_SUBMIT_ALPN.spec_bytes()]
}

/// Whether TLS settings are those of a client with this identity: it trusts the public roots, and
/// offers the submission protocol alone.
pub open spec fn are_submit_tls_settings(
    settings: TlsSettings,
    chain: Seq<CertificateDer<'static>>,
    key: PrivateKeyDer,
) -> bool {
    &&& outside::are_tls_server_roots(settings.roots)
    &&& settings.chain == identity::chain_bytes(chain)
    &&& settings.key == key@
    &&& settings.alpn_protocols == submit_protocols()
}

/// Whether an idle timeout can be announced to the peer.
pub open spec fn idle_timeout_fits(idle_timeout: Option<Duration>) -> bool {
    idle_timeout matches Some(timeout) ==> outside::duration_millis(timeout)
        < outside::varint_bound()
}

/// The transport settings for a keep-alive interval and an idle timeout.  Where no idle timeout is
/// asked for, that of the transport stays.
pub open spec fn requested_transport(
    keep_alive_interval: Option<Duration>,
    idle_timeout: Option<Duration>,
) -> TransportSettings {
    TransportSettings {
        keep_alive_interval,
        max_idle_timeout: match idle_timeout {
            Some(timeout) => Some(outside::duration_millis(timeout)),
            None => outside::default_transport_settings().max_idle_timeout,
        },
    }
}

/// Whether settings are those that a configuration asks for.
pub open spec fn are_requested_settings(
    settings: ClientSettings,
    config: TraderApiQuicClientConfig,
) -> bool {
    &&& are_submit_tls_settings(
        settings.tls,
        config.client_certificate_chain@,
        config.client_private_key,
    )
    &&& settings.transport == requested_transport(config.keep_alive_interval, config.idle_timeout)
}

/// Whether rustls accepted an identity: there is a TLS configuration with it, and, if so asked, one
/// that lacks the cipher suite that QUIC starts with.
pub open spec fn is_accepted_identity(
    chain: Seq<CertificateDer<'static>>,
    key: PrivateKeyDer,
    without_suite: bool,
) -> bool {
    exists|tls: rustls::ClientConfig|
        are_submit_tls_settings(#[trigger] outside::tls_settings(tls), chain, key) && (without_suite
            ==> outside::lacks_initial_suite(tls))
}

/// Whether an error is one for which the settings that a configuration asks for are refused.
/// rustls has the first word: it refuses the identity.  Once it accepted that, an idle timeout can
/// be out of range, and after that, the configuration that rustls made can lack the cipher suite
/// that QUIC starts with.
pub open spec fn is_settings_error(
    error: TraderApiQuicClientError,
    config: TraderApiQuicClientConfig,
) -> bool {
    let chain = config.client_certificate_chain@;
    let key = config.client_private_key;
    ||| error matches TraderApiQuicClientError::Rustls(refusal) && outside::can_refuse_identity(
        identity::chain_bytes(chain),
        key@,
        refusal,
    )
    ||| {
        &&& !idle_timeout_fits(config.idle_timeout)
        &&& error::is_idle_timeout_error(error)
        &&& is_accepted_identity(chain, key, false)
    }
    ||| {
        &&& idle_timeout_fits(config.idle_timeout)
        &&& error::is_crypto_error(error, false)
        &&& is_accepted_identity(chain, key, true)
    }
}

/// Has a new TLS configuration offer the submission protocol alone, given how making it came out.
pub fn offer_submission(made: Result<rustls::ClientConfig, rustls::Error>) -> (offering: Result<
    rustls::ClientConfig,
    rustls::Error,
>)
    ensures
        match made {
            Ok(config) => offering matches Ok(offering) && outside::tls_settings(offering) == (
            TlsSettings {
                alpn_protocols: submit_protocols(),
                ..outside::tls_settings(config)
            }),
            Err(error) => offering == Err::<rustls::ClientConfig, _>(error),
        },
{
    match made {
        Ok(config) => {
            let mut config = config;
            let mut protocols: Vec<Vec<u8>> = Vec::new();
            protocols.push(QUIC_SUBMIT_ALPN.as_bytes_vec());
            outside::set_alpn_protocols(&mut config, protocols);
            proof {
                assert(outside::tls_settings(config).alpn_protocols =~= submit_protocols());
            }
            Ok(config)
        },
        Err(error) => Err(error),
    }
}

/// The TLS configuration of a client with this identity, or the error with which rustls refuses
/// that identity.
///
/// rustls decides whether the identity is accepted, so `Ok` is promised on no input.
pub fn tls_config(
    client_certificate_chain: Vec<CertificateDer<'static>>,
    client_private_key: PrivateKeyDer,
) -> (config: Result<rustls::ClientConfig, rustls::Error>)
    ensures
        match config {
            Ok(config) => are_submit_tls_settings(
                outside::tls_settings(config),
                client_certificate_chain@,
                client_private_key,
            ),
            Err(error) => outside::can_refuse_identity(
                identity::chain_bytes(client_certificate_chain@),
                client_private_key@,
                error,
            ),
        },
{
    let anchors = outside::tls_server_roots();
    let mut roots = outside::empty_root_store();
    let ghost expected = anchors@;
    outside::extend_root_store(&mut roots, anchors);
    proof {
        assert(outside::root_anchors(roots) =~= expected);
    }
    offer_submission(
        outside::client_auth_config(roots, client_certificate_chain, client_private_key),
    )
}

/// The transport configuration for a keep-alive interval and an idle timeout.
pub fn transport_config(
    keep_alive_interval: Option<Duration>,
    idle_timeout: Option<Duration>,
) -> (config: Result<quinn::TransportConfig, TraderApiQuicClientError>)
    ensures
        match config {
            Ok(config) => idle_timeout_fits(idle_timeout) && outside::transport_settings(config)
                == requested_transport(keep_alive_interval, idle_timeout),
            Err(error) => !idle_timeout_fits(idle_timeout) && error::is_idle_timeout_error(error),
        },
        config matches Ok(config) ==> {
            &&& outside::transport_settings(config).keep_alive_interval == keep_alive_interval
            &&& idle_timeout matches Some(timeout) ==> outside::transport_settings(
                config,
            ).max_idle_timeout == Some(outside::duration_nanos(timeout) / 1_000_000)
        },
{
    let mut config = outside::default_transport_config();
    outside::set_keep_alive_interval(&mut config, keep_alive_interval);
    if let Some(timeout) = idle_timeout {
        match outside::idle_timeout(timeout) {
            Ok(idle) => {
                outside::set_max_idle_timeout(&mut config, Some(idle));
            },
            Err(error) => {
                return Err(TraderApiQuicClientError::from(error));
            },
        }
    }
    Ok(config)
}

/// Puts the transport beside the TLS configuration, given how making the latter came out.  That it
/// was refused is reported before an idle timeout that is out of range.
pub fn pair_with_transport(
    tls: Result<rustls::ClientConfig, rustls::Error>,
    keep_alive_interval: Option<Duration>,
    idle_timeout: Option<Duration>,
) -> (paired: Result<(rustls::ClientConfig, quinn::TransportConfig), TraderApiQuicClientError>)
    ensures
        match tls {
            Err(error) => paired == Err::<(rustls::ClientConfig, quinn::TransportConfig), _>(
                TraderApiQuicClientError::Rustls(error),
            ),
            Ok(tls) => match paired {
                Ok((paired_tls, transport)) => {
                    &&& idle_timeout_fits(idle_timeout)
                    &&& paired_tls == tls
                    &&& outside::transport_settings(transport) == requested_transport(
                        keep_alive_interval,
                        idle_timeout,
                    )
                },
                Err(error) => !idle_timeout_fits(idle_timeout) && error::is_idle_timeout_error(
                    error,
                ),
            },
        },
{
    match tls {
        Err(error) => Err(TraderApiQuicClientError::from(error)),
        Ok(tls) => match transport_config(keep_alive_interval, idle_timeout) {
            Ok(transport) => Ok((tls, transport)),
            Err(error) => Err(error),
        },
    }
}

/// Joins the two sides of a QUIC client configuration, given how taking the TLS side for QUIC came
/// out.
pub fn join_sides(
    crypto: Result<
        quinn::crypto::rustls::QuicClientConfig,
        quinn::crypto::rustls::NoInitialCipherSuite,
    >,
    transport: quinn::TransportConfig,
) -> (joined: Result<quinn::ClientConfig, TraderApiQuicClientError>)
    ensures
        match crypto {
            Ok(crypto) => joined matches Ok(config) && outside::client_settings(config) == (
            ClientSettings {
                tls: outside::quic_tls_settings(crypto),
                transport: outside::transport_settings(transport),
            }),
            Err(refusal) => joined matches Err(error) && error::is_crypto_error(
                error,
                outside::suite_was_supplied(refusal),
            ),
        },
{
    match crypto {
        Ok(crypto) => {
            let mut config = outside::new_client_config(crypto);
            outside::set_transport_config(&mut config, transport);
            Ok(config)
        },
        Err(error) => Err(TraderApiQuicClientError::from(error)),
    }
}

/// The QUIC client configuration that a client's configuration asks for.
///
/// rustls decides whether the identity is accepted, so `Ok` is promised on no input.
pub fn client_config(config: TraderApiQuicClientConfig) -> (made: Result<
    quinn::ClientConfig,
    TraderApiQuicClientError,
>)
    ensures
        match made {
            Ok(made) => idle_timeout_fits(config.idle_timeout) && are_requested_settings(
                outside::client_settings(made),
                config,
            ),
            Err(error) => is_settings_error(error, config),
        },
{
    let tls = tls_config(config.client_certificate_chain, config.client_private_key);
    match pair_with_transport(tls, config.keep_alive_interval, config.idle_timeout) {
        Ok((tls, transport)) => join_sides(outside::quic_client_config(tls), transport),
        Err(error) => Err(error),
    }
}

/// The default timeouts are in range, and what they ask of the transport is a sign of life every
/// five seconds and an end after thirty idle ones.
pub proof fn default_timeouts_are_in_range(config: TraderApiQuicClientConfig)
    requires
        config::has_default_timeouts(config),
    ensures
        idle_timeout_fits(config.idle_timeout),
        ({
            let transport = requested_transport(config.keep_alive_interval, config.idle_timeout);
            &&& transport.keep_alive_interval matches Some(interval) && config::is_seconds(
                interval,
                5,
            )
            &&& transport.max_idle_timeout == Some(30_000nat)
        }),
{
}

/// To ask for no idle timeout does not switch it off: the connection is given up after the thirty
/// idle seconds of the transport.
pub proof fn no_idle_timeout_keeps_that_of_the_transport(keep_alive_interval: Option<Duration>)
    ensures
        idle_timeout_fits(None),
        requested_transport(keep_alive_interval, None).max_idle_timeout == Some(30_000nat),
        requested_transport(keep_alive_interval, None).keep_alive_interval == keep_alive_interval,
{
}

/// The timeouts that are asked for are those of the transport, each on its own: the interval
/// between signs of life is the one that is asked for, or none, and an idle timeout counts in
/// whole milliseconds, whether or not the connection is kept alive.
pub proof fn requested_timeouts_reach_the_transport(
    keep_alive_interval: Option<Duration>,
    idle_timeout: Duration,
)
    ensures
        requested_transport(keep_alive_interval, Some(idle_timeout)).max_idle_timeout == Some(
            outside::duration_nanos(idle_timeout) / 1_000_000,
        ),
        requested_transport(keep_alive_interval, Some(idle_timeout)).keep_alive_interval
            == keep_alive_interval,
{
}

/// Neither timeout has a say in the other.
pub proof fn timeouts_do_not_affect_each_other(
    keep_alive_interval: Option<Duration>,
    other_interval: Option<Duration>,
    idle_timeout: Option<Duration>,
    other_timeout: Option<Duration>,
)
    ensures
        requested_transport(keep_alive_interval, idle_timeout).max_idle_timeout
            == requested_transport(other_interval, idle_timeout).max_idle_timeout,
        requested_transport(keep_alive_interval, idle_timeout).keep_alive_interval
            == requested_transport(keep_alive_interval, other_timeout).keep_alive_interval,
{
}

/// An idle timeout is out of range exactly where it has two to the power of 62 milliseconds or
/// more.
pub proof fn only_enormous_idle_timeouts_are_out_of_range(idle_timeout: Duration)
    ensures
        idle_timeout_fits(Some(idle_timeout)) <==> outside::duration_nanos(idle_timeout) / 1_000_000
            < 0x4000_0000_0000_0000,
        idle_timeout_fits(None),
{
}

/// A client presents its own chain, certificate by certificate, and its own key, trusts the public
/// roots, and offers the one protocol for submitting transactions.
pub proof fn tls_shows_the_identity_and_the_protocol(
    settings: TlsSettings,
    chain: Seq<CertificateDer<'static>>,
    key: PrivateKeyDer,
)
    requires
        are_submit_tls_settings(settings, chain, key),
    ensures
        settings.chain.len() == chain.len(),
        forall|i: int|
            0 <= i < chain.len() ==> #[trigger] settings.chain[i] == outside::certificate_bytes(
                chain[i],
            ),
        match key {
            PrivateKeyDer::Pkcs1(key) => settings.key == identity::PrivateKeyModel::Pkcs1(
                outside::pkcs1_bytes(key),
            ),
            PrivateKeyDer::Sec1(key) => settings.key == identity::PrivateKeyModel::Sec1(
                outside::sec1_bytes(key),
            ),
            PrivateKeyDer::Pkcs8(key) => settings.key == identity::PrivateKeyModel::Pkcs8(
                outside::pkcs8_bytes(key),
            ),
        },
        settings.alpn_protocols.len() == 1,
        settings.alpn_protocols[0] == "solana-trader-submit-v1".spec_bytes(),
        outside::are_tls_server_roots(settings.roots),
{
}

/// The settings of a client are those of its own configuration: its identity on the TLS side, and
/// both of its timeouts on the transport side.
pub proof fn client_settings_follow_the_configuration(
    settings: ClientSettings,
    config: TraderApiQuicClientConfig,
)
    requires
        are_requested_settings(settings, config),
    ensures
        settings.transport.keep_alive_interval == config.keep_alive_interval,
        config.idle_timeout matches Some(timeout) ==> settings.transport.max_idle_timeout == Some(
            outside::duration_nanos(timeout) / 1_000_000,
        ),
        config.idle_timeout is None ==> settings.transport.max_idle_timeout == Some(30_000nat),
        settings.tls.chain == identity::chain_bytes(config.client_certificate_chain@),
        settings.tls.key == config.client_private_key@,
        settings.tls.alpn_protocols == seq!["solana-trader-submit-v1".spec_bytes()],
        outside::are_tls_server_roots(settings.tls.roots),
{
}

/// Settings are refused for one of three reasons: rustls refuses the identity of the
/// configuration, the idle timeout of the configuration is out of range, or the cipher suite that
/// QUIC starts with is lacking.  The last two come only once rustls made a configuration with that
/// identity, they are told apart by the idle timeout alone, and each has its text.
pub proof fn settings_are_refused_for_a_reason(
    error: TraderApiQuicClientError,
    config: TraderApiQuicClientConfig,
)
    requires
        is_settings_error(error, config),
    ensures
        match error {
            TraderApiQuicClientError::Rustls(refusal) => outside::can_refuse_identity(
                identity::chain_bytes(config.client_certificate_chain@),
                config.client_private_key@,
                refusal,
            ),
            TraderApiQuicClientError::InvalidIdleTimeout(text) => {
                &&& text@ == "value too large for varint encoding"@
                &&& config.idle_timeout matches Some(timeout) && outside::duration_nanos(timeout)
                    / 1_000_000 >= 0x4000_0000_0000_0000
                &&& exists|tls: rustls::ClientConfig|
                    {
                        &&& (#[trigger] outside::tls_settings(tls)).chain == identity::chain_bytes(
                            config.client_certificate_chain@,
                        )
                        &&& outside::tls_settings(tls).key == config.client_private_key@
                    }
            },
            TraderApiQuicClientError::InvalidCrypto(text) => {
                &&& text@ == "no initial cipher suite found"@
                &&& config.idle_timeout matches Some(timeout) ==> outside::duration_nanos(timeout)
                    / 1_000_000 < 0x4000_0000_0000_0000
                &&& exists|tls: rustls::ClientConfig|
                    {
                        &&& #[trigger] outside::lacks_initial_suite(tls)
                        &&& outside::tls_settings(tls).chain == identity::chain_bytes(
                            config.client_certificate_chain@,
                        )
                        &&& outside::tls_settings(tls).key == config.client_private_key@
                    }
            },
            _ => false,
        },
{
    if error is InvalidCrypto {
        let chain = config.client_certificate_chain@;
        let key = config.client_private_key;
        let tls = choose|tls: rustls::ClientConfig|
            are_submit_tls_settings(#[trigger] outside::tls_settings(tls), chain, key)
                && outside::lacks_initial_suite(tls);
        assert(outside::lacks_initial_suite(tls));
    }
}

} // verus!

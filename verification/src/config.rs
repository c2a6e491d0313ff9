//! The configuration of a client.

use std::time::Duration;

use rustls::pki_types::CertificateDer;
use vstd::prelude::*;

use crate::error::TraderApiQuicClientError;
use crate::identity;
use crate::identity::PrivateKeyDer;
use crate::outside;
use crate::pem;

verus! {

/// The application protocol that transactions are submitted over.
pub const QUIC_SUBMIT_ALPN: &'static str = "solana-trader-submit-v1";

/// The greatest number of bytes in a transaction that can be submitted.
pub const QUIC_MAX_PAYLOAD_BYTES: usize = 1232;

/// The port of an endpoint that names none.
pub const DEFAULT_ENDPOINT_PORT: u16 = 443;

/// Where and as whom a client connects, and how it keeps the connection.
#[derive(Debug)]
pub struct TraderApiQuicClientConfig {
    pub endpoint: String,
    pub connect_timeout: Duration,
    pub keep_alive_interval: Option<Duration>,
    pub idle_timeout: Option<Duration>,
    pub client_certificate_chain: Vec<CertificateDer<'static>>,
    pub client_private_key: PrivateKeyDer,
}

/// Whether a duration is of so many whole seconds.
pub open spec fn is_seconds(duration: Duration, seconds: nat) -> bool {
    outside::duration_nanos(duration) == seconds * 1_000_000_000
}

/// Whether a configuration has the timeouts that it gets where none are asked for: ten seconds to
/// connect, a sign of life every five seconds, and an end after thirty idle ones.
pub open spec fn has_default_timeouts(config: TraderApiQuicClientConfig) -> bool {
    &&& is_seconds(config.connect_timeout, 10)
    &&& config.keep_alive_interval matches Some(interval) && is_seconds(interval, 5)
    &&& config.idle_timeout matches Some(timeout) && is_seconds(timeout, 30)
}

/// Whether making a configuration of PEM data came out as it should: with the certificates and
/// the first private key of the data and the default timeouts, or with the error of the chain, or
/// else with that of the key.
pub open spec fn is_config_from_pem(
    made: Result<TraderApiQuicClientConfig, TraderApiQuicClientError>,
    endpoint: Seq<char>,
    chain_pem: Seq<u8>,
    key_pem: Seq<u8>,
) -> bool {
    match (pem::chain_of(pem::document(chain_pem)), pem::key_of(pem::document(key_pem))) {
        (Err(text), _) => made matches Err(error) && pem::is_pem_error(error, text),
        (Ok(_), Err(text)) => made matches Err(error) && pem::is_pem_error(error, text),
        (Ok(chain), Ok(key)) => {
            &&& made matches Ok(config)
            &&& config.endpoint@ == endpoint
            &&& identity::chain_bytes(config.client_certificate_chain@) == chain
            &&& config.client_private_key@ == key
            &&& has_default_timeouts(config)
        },
    }
}

impl TraderApiQuicClientConfig {
    /// A configuration with the default timeouts.
    pub fn new(
        endpoint: String,
        client_certificate_chain: Vec<CertificateDer<'static>>,
        client_private_key: PrivateKeyDer,
    ) -> (config: Self)
        ensures
            config.endpoint == endpoint,
            config.client_certificate_chain == client_certificate_chain,
            config.client_private_key == client_private_key,
            has_default_timeouts(config),
    {
        TraderApiQuicClientConfig {
            endpoint,
            connect_timeout: Duration::from_secs(10),
            keep_alive_interval: Some(Duration::from_secs(5)),
            idle_timeout: Some(Duration::from_secs(30)),
            client_certificate_chain,
            client_private_key,
        }
    }

    /// A configuration whose identity is read from PEM data: all certificates of the one, and the
    /// first private key of the other.
    pub fn new_from_pem(
        endpoint: &str,
        client_certificate_chain_pem: &[u8],
        client_private_key_pem: &[u8],
    ) -> (made: Result<Self, TraderApiQuicClientError>)
        ensures
            is_config_from_pem(
                made,
                endpoint@,
                client_certificate_chain_pem@,
                client_private_key_pem@,
            ),
    {
        let chain = match pem::certificates_from_pem(client_certificate_chain_pem) {
            Ok(chain) => chain,
            Err(error) => {
                return Err(error);
            },
        };
        let key = match pem::private_key_from_pem(client_private_key_pem) {
            Ok(key) => key,
            Err(error) => {
                return Err(error);
            },
        };
        Ok(Self::new(endpoint.to_owned(), chain, key))
    }

    /// A configuration whose identity comes from two PEM files, given what reading each of them
    /// gave.  A file that could not be read is reported before anything that a file holds.
    pub fn new_from_pem_files(
        endpoint: &str,
        client_cert: Result<Vec<u8>, std::io::Error>,
        client_key: Result<Vec<u8>, std::io::Error>,
    ) -> (made: Result<Self, TraderApiQuicClientError>)
        ensures
            match (client_cert, client_key) {
                (Err(error), _) => made == Err::<Self, _>(
                    TraderApiQuicClientError::Endpoint(error),
                ),
                (Ok(_), Err(error)) => made == Err::<Self, _>(
                    TraderApiQuicClientError::Endpoint(error),
                ),
                (Ok(chain_pem), Ok(key_pem)) => is_config_from_pem(
                    made,
                    endpoint@,
                    chain_pem@,
                    key_pem@,
                ),
            },
    {
        let chain_pem = match client_cert {
            Ok(data) => data,
            Err(error) => {
                return Err(TraderApiQuicClientError::from(error));
            },
        };
        let key_pem = match client_key {
            Ok(data) => data,
            Err(error) => {
                return Err(TraderApiQuicClientError::from(error));
            },
        };
        Self::new_from_pem(endpoint, chain_pem.as_slice(), key_pem.as_slice())
    }

    /// The same configuration with another time to connect in.
    pub fn with_connect_timeout(self, connect_timeout: Duration) -> (config: Self)
        ensures
            config == (TraderApiQuicClientConfig { connect_timeout, ..self }),
    {
        TraderApiQuicClientConfig { connect_timeout, ..self }
    }

    /// The same configuration with another interval between signs of life, or with none sent.
    pub fn with_keep_alive_interval(self, keep_alive_interval: Option<Duration>) -> (config: Self)
        ensures
            config == (TraderApiQuicClientConfig { keep_alive_interval, ..self }),
    {
        TraderApiQuicClientConfig { keep_alive_interval, ..self }
    }

    /// The same configuration with another idle timeout, or with none asked for.
    pub fn with_idle_timeout(self, idle_timeout: Option<Duration>) -> (config: Self)
        ensures
            config == (TraderApiQuicClientConfig { idle_timeout, ..self }),
    {
        TraderApiQuicClientConfig { idle_timeout, ..self }
    }

    /// The same configuration for another client.
    pub fn with_client_identity(
        self,
        client_certificate_chain: Vec<CertificateDer<'static>>,
        client_private_key: PrivateKeyDer,
    ) -> (config: Self)
        ensures
            config == (TraderApiQuicClientConfig {
                client_certificate_chain,
                client_private_key,
                ..self
            }),
    {
        TraderApiQuicClientConfig { client_certificate_chain, client_private_key, ..self }
    }
}

/// A configuration that is made of PEM data always has a client certificate.
pub proof fn config_from_pem_has_a_certificate(
    config: TraderApiQuicClientConfig,
    endpoint: Seq<char>,
    chain_pem: Seq<u8>,
    key_pem: Seq<u8>,
)
    requires
        is_config_from_pem(Ok(config), endpoint, chain_pem, key_pem),
    ensures
        config.client_certificate_chain@.len() > 0,
{
    pem::chain_is_never_empty(pem::document(chain_pem));
    assert(identity::chain_bytes(config.client_certificate_chain@).len()
        == config.client_certificate_chain@.len());
}

/// The default timeouts are ten seconds to connect, five between signs of life, and thirty idle
/// ones.
pub proof fn default_timeouts_in_nanoseconds(config: TraderApiQuicClientConfig)
    requires
        has_default_timeouts(config),
    ensures
        outside::duration_nanos(config.connect_timeout) == 10_000_000_000nat,
        config.keep_alive_interval matches Some(interval) && outside::duration_nanos(interval)
            == 5_000_000_000nat,
        config.idle_timeout matches Some(timeout) && outside::duration_nanos(timeout)
            == 30_000_000_000nat,
{
}

/// A configuration that is made of PEM data is for the endpoint that was asked for, with every
/// certificate of the one, in order, and the first private key of the other.
pub proof fn config_from_pem_holds_what_the_data_holds(
    config: TraderApiQuicClientConfig,
    endpoint: Seq<char>,
    chain_pem: Seq<u8>,
    key_pem: Seq<u8>,
)
    requires
        is_config_from_pem(Ok(config), endpoint, chain_pem, key_pem),
    ensures
        config.endpoint@ == endpoint,
        pem::document(chain_pem).error is None,
        config.client_certificate_chain@.len() == pem::certificates_in(
            pem::document(chain_pem).sections,
        ).len(),
        forall|i: int|
            0 <= i < config.client_certificate_chain@.len() ==> outside::certificate_bytes(
                #[trigger] config.client_certificate_chain@[i],
            ) == pem::certificates_in(pem::document(chain_pem).sections)[i],
        pem::first_key(pem::document(key_pem).sections) == Some(config.client_private_key@),
        has_default_timeouts(config),
{
    let chain = config.client_certificate_chain@;
    let bytes = identity::chain_bytes(chain);
    identity::chain_is_seen_whole(chain);
    assert(bytes == pem::certificates_in(pem::document(chain_pem).sections));
    assert forall|i: int| 0 <= i < chain.len() implies outside::certificate_bytes(
        #[trigger] chain[i],
    ) == bytes[i] by {}
}

/// PEM data makes a configuration exactly where the one gives a chain and the other a key.
/// Otherwise the error is that of the chain if it has one, and else that of the key.
pub proof fn pem_data_is_refused_for_a_reason(
    made: Result<TraderApiQuicClientConfig, TraderApiQuicClientError>,
    endpoint: Seq<char>,
    chain_pem: Seq<u8>,
    key_pem: Seq<u8>,
)
    requires
        is_config_from_pem(made, endpoint, chain_pem, key_pem),
    ensures
        made is Ok <==> pem::chain_of(pem::document(chain_pem)) is Ok && pem::key_of(
            pem::document(key_pem),
        ) is Ok,
        pem::chain_of(pem::document(chain_pem)) matches Err(text) ==> (made matches Err(
            TraderApiQuicClientError::Pem(found),
        ) && found@ == text),
        pem::chain_of(pem::document(chain_pem)) is Ok ==> (pem::key_of(
            pem::document(key_pem),
        ) matches Err(text) ==> (made matches Err(TraderApiQuicClientError::Pem(found)) && found@
            == text)),
{
}

} // verus!

//! Establishing a connection, step by step.
//!
//! Reading addresses, looking up a host and dialing are left to the caller.  Each step takes what
//! the caller found out, and says what there is to do next.

use std::time::Duration;

use vstd::prelude::*;

use crate::client::TraderApiQuicClient;
use crate::config::TraderApiQuicClientConfig;
use crate::endpoint;
use crate::endpoint::{IpAddress, Literals, Server, SocketAddress, Target, TargetModel};
use crate::error::TraderApiQuicClientError;
use crate::outside;
use crate::settings;

verus! {

/// A connection whose endpoint is still to be read.
#[derive(Debug)]
pub struct Resolving {
    pub config: TraderApiQuicClientConfig,
}

/// A connection whose host is to be looked up.
#[derive(Debug)]
pub struct LookingUp {
    pub config: TraderApiQuicClientConfig,
    pub host: String,
    pub port: u16,
}

/// A connection that is ready to be dialed: from which local address, to which server, with
/// which settings, and in what time.
#[derive(Debug)]
pub struct Dialing {
    pub local_address: SocketAddress,
    pub server: Server,
    pub client_config: quinn::ClientConfig,
    pub connect_timeout: Duration,
}

/// What to do once an endpoint was read.
#[derive(Debug)]
pub enum NextStep {
    LookUp(LookingUp),
    Dial(Dialing),
}

/// How dialing came out, with the connection if there is one.
#[derive(Debug)]
pub enum DialOutcome<C> {
    /// The local socket could not be opened.
    SocketFailed(std::io::Error),
    /// The attempt could not be started.
    NotStarted(quinn::ConnectError),
    /// The attempt took longer than it may.
    TimedOut,
    /// The attempt failed.
    Failed(quinn::ConnectionError),
    /// The connection is established.
    Connected(C),
}

/// Any port of every local address.
pub open spec fn any_local_address() -> SocketAddress {
    SocketAddress::spec_new(IpAddress::V6(0), 0)
}

/// Whether a connection is ready to be dialed as its configuration asks, to this server.
pub open spec fn is_ready(
    dialing: Dialing,
    config: TraderApiQuicClientConfig,
    address: SocketAddress,
    name: Seq<char>,
) -> bool {
    &&& dialing.local_address == any_local_address()
    &&& dialing.server.address == address
    &&& dialing.server.name@ == name
    &&& dialing.connect_timeout == config.connect_timeout
    &&& settings::idle_timeout_fits(config.idle_timeout)
    &&& settings::are_requested_settings(outside::client_settings(dialing.client_config), config)
}

/// Whether preparing to dial came out as it may: ready, or with the settings refused.
pub open spec fn is_prepared(
    prepared: Result<Dialing, TraderApiQuicClientError>,
    config: TraderApiQuicClientConfig,
    address: SocketAddress,
    name: Seq<char>,
) -> bool {
    match prepared {
        Ok(dialing) => is_ready(dialing, config, address, name),
        Err(error) => settings::is_settings_error(error, config),
    }
}

/// Makes a connection ready to be dialed, given how making its settings came out.
pub fn ready_to_dial(
    server: Server,
    connect_timeout: Duration,
    client_config: Result<quinn::ClientConfig, TraderApiQuicClientError>,
) -> (ready: Result<Dialing, TraderApiQuicClientError>)
    ensures
        match client_config {
            Ok(client_config) => ready == Ok::<_, TraderApiQuicClientError>(
                Dialing {
                    local_address: any_local_address(),
                    server,
                    client_config,
                    connect_timeout,
                },
            ),
            Err(error) => ready == Err::<Dialing, _>(error),
        },
{
    match client_config {
        Ok(client_config) => {
            let local_address = SocketAddress::new(IpAddress::V6(0), 0);
            Ok(Dialing { local_address, server, client_config, connect_timeout })
        },
        Err(error) => Err(error),
    }
}

fn prepare(config: TraderApiQuicClientConfig, server: Server) -> (prepared: Result<
    Dialing,
    TraderApiQuicClientError,
>)
    ensures
        is_prepared(prepared, config, server.address, server.name@),
{
    let connect_timeout = config.connect_timeout;
    ready_to_dial(server, connect_timeout, settings::client_config(config))
}

impl Resolving {
    /// Decides whether the endpoint has to be looked up, given what it reads as.
    pub fn resolve(self, literals: Literals) -> (next: Result<NextStep, TraderApiQuicClientError>)
        ensures
            match endpoint::target_of(self.config.endpoint@, literals@) {
                Err(reason) => next matches Err(error) && endpoint::is_endpoint_error(
                    error,
                    reason,
                ),
                Ok(TargetModel::LookUp { host, port }) => next matches Ok(NextStep::LookUp(step))
                    && step.config == self.config && step.host@ == host && step.port == port,
                Ok(TargetModel::Known { address, name }) => match next {
                    Ok(NextStep::Dial(dialing)) => is_ready(dialing, self.config, address, name),
                    Ok(NextStep::LookUp(_)) => false,
                    Err(error) => settings::is_settings_error(error, self.config),
                },
            },
    {
        match endpoint::resolve_endpoint(self.config.endpoint.as_str(), literals) {
            Ok(Target::LookUp { host, port }) => {
                Ok(NextStep::LookUp(LookingUp { config: self.config, host, port }))
            },
            Ok(Target::Known(server)) => match prepare(self.config, server) {
                Ok(dialing) => Ok(NextStep::Dial(dialing)),
                Err(error) => Err(error),
            },
            Err(error) => Err(error),
        }
    }
}

impl LookingUp {
    /// Goes on with the addresses that the host was found at.
    pub fn resolve(self, found: Result<Vec<SocketAddress>, String>) -> (next: Result<
        Dialing,
        TraderApiQuicClientError,
    >)
        ensures
            match endpoint::address_found(
                self.config.endpoint@,
                endpoint::look_up_outcome(found),
            ) {
                Err(reason) => next matches Err(error) && endpoint::is_endpoint_error(
                    error,
                    reason,
                ),
                Ok(address) => is_prepared(next, self.config, address, self.host@),
            },
            next matches Ok(dialing) ==> {
                &&& found matches Ok(addresses) && addresses@.len() > 0 && dialing.server.address
                    == addresses@[0]
                &&& dialing.server.name@ == self.host@
            },
    {
        match endpoint::pick_server(self.config.endpoint.as_str(), self.host, found) {
            Ok(server) => prepare(self.config, server),
            Err(error) => Err(error),
        }
    }
}

/// The error that a dial which gave no connection ends with.
pub open spec fn dial_error<C>(
    outcome: DialOutcome<C>,
    connect_timeout: Duration,
) -> TraderApiQuicClientError
    recommends
        outcome !is Connected,
{
    match outcome {
        DialOutcome::SocketFailed(error) => TraderApiQuicClientError::Endpoint(error),
        DialOutcome::NotStarted(error) => TraderApiQuicClientError::Connect(error),
        DialOutcome::TimedOut => TraderApiQuicClientError::ConnectTimeout(connect_timeout),
        DialOutcome::Failed(error) => TraderApiQuicClientError::Connection(error),
        DialOutcome::Connected(_) => arbitrary(),
    }
}

/// The client that dialing gives.
pub fn dialed<C>(connect_timeout: Duration, outcome: DialOutcome<C>) -> (client: Result<
    TraderApiQuicClient<C>,
    TraderApiQuicClientError,
>)
    ensures
        client == match outcome {
            DialOutcome::Connected(connection) => Ok(TraderApiQuicClient { connection }),
            _ => Err(dial_error(outcome, connect_timeout)),
        },
{
    match outcome {
        DialOutcome::SocketFailed(error) => Err(TraderApiQuicClientError::from(error)),
        DialOutcome::NotStarted(error) => Err(TraderApiQuicClientError::from(error)),
        DialOutcome::TimedOut => Err(TraderApiQuicClientError::ConnectTimeout(connect_timeout)),
        DialOutcome::Failed(error) => Err(TraderApiQuicClientError::from(error)),
        DialOutcome::Connected(connection) => Ok(TraderApiQuicClient { connection }),
    }
}

/// A connection is dialed to the address and under the name that were found, within the time of
/// its configuration, from any port of every local address, and with the timeouts and the identity
/// of its configuration.
pub proof fn dial_follows_the_configuration(
    dialing: Dialing,
    config: TraderApiQuicClientConfig,
    address: SocketAddress,
    name: Seq<char>,
)
    requires
        is_ready(dialing, config, address, name),
    ensures
        dialing.server.address == address,
        dialing.server.name@ == name,
        dialing.connect_timeout == config.connect_timeout,
        dialing.local_address == (SocketAddress {
            ip: IpAddress::V6(0),
            port: 0,
            flow_info: 0,
            scope_id: 0,
        }),
        ({
            let client = outside::client_settings(dialing.client_config);
            &&& client.transport.keep_alive_interval == config.keep_alive_interval
            &&& config.idle_timeout matches Some(timeout) ==> client.transport.max_idle_timeout
                == Some(outside::duration_nanos(timeout) / 1_000_000)
            &&& config.idle_timeout is None ==> client.transport.max_idle_timeout == Some(
                30_000nat,
            )
            &&& settings::are_submit_tls_settings(
                client.tls,
                config.client_certificate_chain@,
                config.client_private_key,
            )
        }),
{
    settings::client_settings_follow_the_configuration(
        outside::client_settings(dialing.client_config),
        config,
    );
}

/// Preparing to dial ends with the server that was found, or with the settings refused; an endpoint
/// that was read is never refused any more.
pub proof fn prepared_dial_goes_to_the_server(
    prepared: Result<Dialing, TraderApiQuicClientError>,
    config: TraderApiQuicClientConfig,
    address: SocketAddress,
    name: Seq<char>,
)
    requires
        is_prepared(prepared, config, address, name),
    ensures
        prepared matches Ok(dialing) ==> {
            &&& dialing.server.address == address
            &&& dialing.server.name@ == name
            &&& dialing.connect_timeout == config.connect_timeout
        },
        prepared matches Err(error) ==> error is Rustls || error is InvalidIdleTimeout
            || error is InvalidCrypto,
{
    if let Err(error) = prepared {
        settings::settings_are_refused_for_a_reason(error, config);
    }
}

/// Each way for a dial to fail has its own error, and an attempt that took too long names the time
/// that it had.
pub proof fn dials_fail_with_their_own_errors<C>(
    socket: std::io::Error,
    starting: quinn::ConnectError,
    connecting: quinn::ConnectionError,
    connect_timeout: Duration,
)
    ensures
        dial_error::<C>(DialOutcome::SocketFailed(socket), connect_timeout)
            == TraderApiQuicClientError::Endpoint(socket),
        dial_error::<C>(DialOutcome::NotStarted(starting), connect_timeout)
            == TraderApiQuicClientError::Connect(starting),
        dial_error::<C>(DialOutcome::TimedOut, connect_timeout)
            == TraderApiQuicClientError::ConnectTimeout(connect_timeout),
        dial_error::<C>(DialOutcome::Failed(connecting), connect_timeout)
            == TraderApiQuicClientError::Connection(connecting),
{
}

} // verus!

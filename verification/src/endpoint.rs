//! What an endpoint names: a server at a known address, or a host to look up.

use vstd::prelude::*;
use vstd::string::*;

use crate::config::DEFAULT_ENDPOINT_PORT;
use crate::error::TraderApiQuicClientError;
use crate::outside;
use crate::text;

verus! {

/// An IP address, as the number that its bytes stand for in network order.
#[derive(Debug, Clone, Copy, PartialEq, Eq, Structural)]
pub enum IpAddress {
    V4(u32),
    V6(u128),
}

/// An IP address with a port.  The flow information and the scope are those of an IPv6 address,
/// and zero for every other.
#[derive(Debug, Clone, Copy, PartialEq, Eq, Structural)]
pub struct SocketAddress {
    pub ip: IpAddress,
    pub port: u16,
    pub flow_info: u32,
    pub scope_id: u32,
}

impl SocketAddress {
    pub open spec fn spec_new(ip: IpAddress, port: u16) -> Self {
        SocketAddress { ip, port, flow_info: 0, scope_id: 0 }
    }

    /// An address with no flow information and no scope.
    pub fn new(ip: IpAddress, port: u16) -> (address: Self)
        ensures
            address == Self::spec_new(ip, port),
            address.ip == ip,
            address.port == port,
            address.flow_info == 0,
            address.scope_id == 0,
    {
        SocketAddress { ip, port, flow_info: 0, scope_id: 0 }
    }
}

/// A text that was read as a socket address, with the text of the IP address in it.
#[derive(Debug, PartialEq, Eq)]
pub struct SocketLiteral {
    pub address: SocketAddress,
    pub ip_text: String,
}

/// A text that was read as an IP address, with the canonical text of that address.
#[derive(Debug, PartialEq, Eq)]
pub struct IpLiteral {
    pub ip: IpAddress,
    pub text: String,
}

/// What an endpoint reads as by the grammars of addresses: as a socket address, as an IP address,
/// and, where brackets enclose it, what stands between them as an IP address.
#[derive(Debug, PartialEq, Eq)]
pub struct Literals {
    pub socket: Option<SocketLiteral>,
    pub ip: Option<IpLiteral>,
    pub bracketed: Option<IpLiteral>,
}

/// The readings of an endpoint, with texts as sequences.
pub struct LiteralsModel {
    pub socket: Option<(SocketAddress, Seq<char>)>,
    pub ip: Option<(IpAddress, Seq<char>)>,
    pub bracketed: Option<(IpAddress, Seq<char>)>,
}

impl View for Literals {
    type V = LiteralsModel;

    open spec fn view(&self) -> LiteralsModel {
        LiteralsModel {
            socket: match self.socket {
                Some(literal) => Some((literal.address, literal.ip_text@)),
                None => None,
            },
            ip: match self.ip {
                Some(literal) => Some((literal.ip, literal.text@)),
                None => None,
            },
            bracketed: match self.bracketed {
                Some(literal) => Some((literal.ip, literal.text@)),
                None => None,
            },
        }
    }
}

/// A server to connect to: where it is, and the name that its certificate has to be for.
#[derive(Debug, PartialEq, Eq)]
pub struct Server {
    pub address: SocketAddress,
    pub name: String,
}

/// What an endpoint names.
#[derive(Debug, PartialEq, Eq)]
pub enum Target {
    Known(Server),
    LookUp { host: String, port: u16 },
}

/// What an endpoint names, with texts as sequences.
pub enum TargetModel {
    Known { address: SocketAddress, name: Seq<char> },
    LookUp { host: Seq<char>, port: u16 },
}

impl View for Target {
    type V = TargetModel;

    open spec fn view(&self) -> TargetModel {
        match self {
            Target::Known(server) => TargetModel::Known {
                address: server.address,
                name: server.name@,
            },
            Target::LookUp { host, port } => TargetModel::LookUp { host: host@, port: *port },
        }
    }
}

/// The IP address that an endpoint consists of, with or without brackets around it.
pub open spec fn ip_of(endpoint: Seq<char>, literals: LiteralsModel) -> Option<
    (IpAddress, Seq<char>),
> {
    if literals.ip is Some {
        literals.ip
    } else if text::enclosed(endpoint, '[', ']') is Some {
        literals.bracketed
    } else {
        None
    }
}

/// The host and the port that an endpoint names which is no address: what stands before and after
/// its last colon, or all of it and the default port.  Otherwise the reason why it names none.
pub open spec fn host_and_port(endpoint: Seq<char>) -> Result<(Seq<char>, u16), Seq<char>> {
    match text::split_at_last(endpoint, ':') {
        None => Ok((endpoint, DEFAULT_ENDPOINT_PORT)),
        Some((host, port)) => if host.len() == 0 {
            Err(endpoint + ": missing host"@)
        } else {
            match outside::port_value(port) {
                Some(number) => Ok((host, number)),
                None => Err(endpoint + ": invalid port: "@ + outside::port_error_text(port)),
            }
        },
    }
}

/// What an endpoint names: the server at the address that it is, with the default port where it
/// has none, or else a host to look up.
pub open spec fn target_of(endpoint: Seq<char>, literals: LiteralsModel) -> Result<
    TargetModel,
    Seq<char>,
> {
    if let Some((address, name)) = literals.socket {
        Ok(TargetModel::Known { address, name })
    } else if let Some((ip, name)) = ip_of(endpoint, literals) {
        Ok(
            TargetModel::Known {
                address: SocketAddress::spec_new(ip, DEFAULT_ENDPOINT_PORT),
                name,
            },
        )
    } else {
        match host_and_port(endpoint) {
            Ok((host, port)) => Ok(TargetModel::LookUp { host, port }),
            Err(reason) => Err(reason),
        }
    }
}

/// The address to connect to among those that a host was found at: the first of them.  Otherwise
/// the reason why there is none.
pub open spec fn address_found(
    endpoint: Seq<char>,
    found: Result<Seq<SocketAddress>, Seq<char>>,
) -> Result<SocketAddress, Seq<char>> {
    match found {
        Err(error) => Err(endpoint + ": failed to resolve: "@ + error),
        Ok(addresses) => if addresses.len() == 0 {
            Err(endpoint + ": no addresses found"@)
        } else {
            Ok(addresses.first())
        },
    }
}

/// The outcome of a look-up, with its addresses and its error text as sequences.
pub open spec fn look_up_outcome(found: Result<Vec<SocketAddress>, String>) -> Result<
    Seq<SocketAddress>,
    Seq<char>,
> {
    match found {
        Ok(addresses) => Ok(addresses@),
        Err(error) => Err(error@),
    }
}

/// Whether an error says that an endpoint is of no use, for this reason.
pub open spec fn is_endpoint_error(error: TraderApiQuicClientError, reason: Seq<char>) -> bool {
    error matches TraderApiQuicClientError::InvalidEndpoint(found) && found@ == reason
}

/// The error that an endpoint is of no use: the endpoint, what is wrong with it, and what is known
/// of why.
fn invalid_endpoint(endpoint: &str, problem: &str, detail: &str) -> (error:
    TraderApiQuicClientError)
    ensures
        is_endpoint_error(error, endpoint@ + problem@ + detail@),
{
    let mut reason = endpoint.to_owned();
    reason.append(problem);
    reason.append(detail);
    TraderApiQuicClientError::InvalidEndpoint(reason)
}

/// The port of an endpoint, given how the text of the port was read.
pub fn accept_port(endpoint: &str, parsed: Result<u16, String>) -> (port: Result<
    u16,
    TraderApiQuicClientError,
>)
    ensures
        match parsed {
            Ok(number) => port == Ok::<_, TraderApiQuicClientError>(number),
            Err(error) => port matches Err(found) && is_endpoint_error(
                found,
                endpoint@ + ": invalid port: "@ + error@,
            ),
        },
{
    match parsed {
        Ok(number) => Ok(number),
        Err(error) => Err(invalid_endpoint(endpoint, ": invalid port: ", error.as_str())),
    }
}

/// Splits an endpoint that is no address into the host and the port that it names.
fn split_endpoint<'a>(endpoint: &'a str) -> (split: Result<
    (&'a str, u16),
    TraderApiQuicClientError,
>)
    ensures
        match host_and_port(endpoint@) {
            Ok((host, port)) => split matches Ok((found, number)) && found@ == host && number
                == port,
            Err(reason) => split matches Err(error) && is_endpoint_error(error, reason),
        },
{
    match text::rsplit_once(endpoint, ':') {
        None => Ok((endpoint, DEFAULT_ENDPOINT_PORT)),
        Some((host, port)) => {
            if host.is_empty() {
                proof {
                    reveal_strlit("");
                    assert(endpoint@ + ": missing host"@ + ""@ =~= endpoint@ + ": missing host"@);
                }
                Err(invalid_endpoint(endpoint, ": missing host", ""))
            } else {
                match accept_port(endpoint, outside::parse_port(port)) {
                    Ok(number) => Ok((host, number)),
                    Err(error) => Err(error),
                }
            }
        },
    }
}

/// What stands between brackets that enclose an endpoint.
pub fn bracketed_text<'a>(endpoint: &'a str) -> (inner: Option<&'a str>)
    ensures
        match (inner, text::enclosed(endpoint@, '[', ']')) {
            (Some(inner), Some(expected)) => inner@ == expected,
            (None, None) => true,
            _ => false,
        },
{
    text::strip_enclosing(endpoint, '[', ']')
}

/// Decides what an endpoint names, given what it reads as by the grammars of addresses.  The
/// readings count as they come: that they are those of this endpoint is for the caller to see to.
pub fn resolve_endpoint(endpoint: &str, literals: Literals) -> (target: Result<
    Target,
    TraderApiQuicClientError,
>)
    ensures
        match target_of(endpoint@, literals@) {
            Ok(expected) => target matches Ok(target) && target@ == expected,
            Err(reason) => target matches Err(error) && is_endpoint_error(error, reason),
        },
        literals.socket matches Some(literal) ==> target == Ok::<_, TraderApiQuicClientError>(
            Target::Known(Server { address: literal.address, name: literal.ip_text }),
        ),
        literals.socket is None ==> (literals.ip matches Some(literal) ==> (target matches Ok(
            Target::Known(server),
        ) && server.address.ip == literal.ip && server.address.port == 443 && server.name
            == literal.text)),
{
    if let Some(literal) = literals.socket {
        return Ok(Target::Known(Server { address: literal.address, name: literal.ip_text }));
    }
    if let Some(literal) = literals.ip {
        let address = SocketAddress::new(literal.ip, DEFAULT_ENDPOINT_PORT);
        return Ok(Target::Known(Server { address, name: literal.text }));
    }
    if bracketed_text(endpoint).is_some() {
        if let Some(literal) = literals.bracketed {
            let address = SocketAddress::new(literal.ip, DEFAULT_ENDPOINT_PORT);
            return Ok(Target::Known(Server { address, name: literal.text }));
        }
    }
    match split_endpoint(endpoint) {
        Ok((host, port)) => Ok(Target::LookUp { host: host.to_owned(), port }),
        Err(error) => Err(error),
    }
}

/// Picks the server among the addresses that its host was found at.
pub fn pick_server(
    endpoint: &str,
    host: String,
    found: Result<Vec<SocketAddress>, String>,
) -> (server: Result<Server, TraderApiQuicClientError>)
    ensures
        match address_found(endpoint@, look_up_outcome(found)) {
            Ok(address) => server matches Ok(server) && server.address == address && server.name
                == host,
            Err(reason) => server matches Err(error) && is_endpoint_error(error, reason),
        },
        found matches Ok(addresses) ==> addresses@.len() > 0 ==> server == Ok::<
            _,
            TraderApiQuicClientError,
        >(Server { address: addresses@[0], name: host }),
        found is Err || found->Ok_0@.len() == 0 ==> server is Err,
{
    match found {
        Ok(addresses) => {
            if addresses.len() == 0 {
                proof {
                    reveal_strlit("");
                    assert(endpoint@ + ": no addresses found"@ + ""@ =~= endpoint@
                        + ": no addresses found"@);
                }
                Err(invalid_endpoint(endpoint, ": no addresses found", ""))
            } else {
                Ok(Server { address: addresses[0], name: host })
            }
        },
        Err(error) => Err(invalid_endpoint(endpoint, ": failed to resolve: ", error.as_str())),
    }
}

/// An endpoint without a colon that is no address is a host, at the default port.
pub proof fn bare_host_gets_default_port(endpoint: Seq<char>, literals: LiteralsModel)
    requires
        literals.socket is None,
        ip_of(endpoint, literals) is None,
        !endpoint.contains(':'),
    ensures
        target_of(endpoint, literals) == Ok::<_, Seq<char>>(
            TargetModel::LookUp { host: endpoint, port: 443 },
        ),
{
    text::split_at_last_rejoins(endpoint, ':');
}

/// A host, a colon and a port written in decimal are a host to look up, at that port.
pub proof fn explicit_port_is_kept(host: Seq<char>, port: u16, literals: LiteralsModel)
    requires
        host.len() > 0,
        literals.socket is None,
        ip_of(host + seq![':'] + text::decimal_text(port as nat), literals) is None,
    ensures
        target_of(host + seq![':'] + text::decimal_text(port as nat), literals) == Ok::<
            _,
            Seq<char>,
        >(TargetModel::LookUp { host, port }),
{
    let digits = text::decimal_text(port as nat);
    text::decimal_text_reads_back(port as nat);
    assert(!digits.contains(':')) by {
        if digits.contains(':') {
            let i = choose|i: int| 0 <= i < digits.len() && digits[i] == ':';
            assert(text::is_digit(digits[i]));
        }
    }
    text::split_at_last_is_unique(host, ':', digits);
    assert(text::is_digit(digits[0]));
    assert(outside::port_digits(digits) == digits);
}

/// An endpoint that is an address is never looked up: a port that it has is kept, and otherwise it
/// gets the default one.  The server goes by the text of the IP address.
pub proof fn address_is_never_looked_up(endpoint: Seq<char>, literals: LiteralsModel)
    ensures
        literals.socket matches Some((address, name)) ==> target_of(endpoint, literals) == Ok::<
            _,
            Seq<char>,
        >(TargetModel::Known { address, name }),
        literals.socket is None ==> (ip_of(endpoint, literals) matches Some((ip, name)) ==> (
        target_of(endpoint, literals) matches Ok(TargetModel::Known { address, name: found })
            && address.ip == ip && address.port == 443 && found == name)),
{
}

/// Brackets around an IP address make no difference.
pub proof fn brackets_make_no_difference(
    inner: Seq<char>,
    ip: IpAddress,
    name: Seq<char>,
    bracketed: Option<(IpAddress, Seq<char>)>,
)
    ensures
        target_of(
            seq!['['] + inner + seq![']'],
            LiteralsModel { socket: None, ip: None, bracketed: Some((ip, name)) },
        ) == target_of(inner, LiteralsModel { socket: None, ip: Some((ip, name)), bracketed }),
        text::enclosed(seq!['['] + inner + seq![']'], '[', ']') == Some(inner),
{
    let endpoint = seq!['['] + inner + seq![']'];
    assert(endpoint.subrange(1, endpoint.len() - 1) =~= inner);
}

/// Whether an endpoint is a host and the text of a port, with a colon between them.
pub open spec fn is_host_with_port(
    endpoint: Seq<char>,
    host: Seq<char>,
    port_text: Seq<char>,
    port: u16,
) -> bool {
    &&& endpoint == host + seq![':'] + port_text
    &&& host.len() > 0
    &&& !port_text.contains(':')
    &&& outside::port_value(port_text) == Some(port)
}

/// A host to look up is the whole endpoint, at the default port, or makes up the endpoint together
/// with its port.
pub proof fn looked_up_parts_make_up_the_endpoint(endpoint: Seq<char>, literals: LiteralsModel)
    ensures
        target_of(endpoint, literals) matches Ok(TargetModel::LookUp { host, port }) ==> (
        !endpoint.contains(':') && host == endpoint && port == 443) || (exists|
            port_text: Seq<char>,
        | is_host_with_port(endpoint, host, port_text, port)),
{
    text::split_at_last_rejoins(endpoint, ':');
    if let Ok(TargetModel::LookUp { host, port }) = target_of(endpoint, literals) {
        if let Some((before, after)) = text::split_at_last(endpoint, ':') {
            assert(is_host_with_port(endpoint, host, after, port));
        }
    }
}

/// Whatever is wrong with an endpoint, the reason starts with the endpoint itself.
pub proof fn reasons_name_the_endpoint(
    endpoint: Seq<char>,
    literals: LiteralsModel,
    found: Result<Seq<SocketAddress>, Seq<char>>,
)
    ensures
        target_of(endpoint, literals) matches Err(reason) ==> endpoint.is_prefix_of(reason),
        address_found(endpoint, found) matches Err(reason) ==> endpoint.is_prefix_of(reason),
{
    if let Err(reason) = target_of(endpoint, literals) {
        assert(reason.subrange(0, endpoint.len() as int) =~= endpoint);
    }
    if let Err(reason) = address_found(endpoint, found) {
        assert(reason.subrange(0, endpoint.len() as int) =~= endpoint);
    }
}

/// The first address that a host is found at is taken as it is, its port and its scope with it,
/// whatever the endpoint and whatever addresses follow.  A look-up that fails or finds nothing is
/// reported, with the text of the failure.
pub proof fn first_address_found_is_taken_whole(
    endpoint: Seq<char>,
    first: SocketAddress,
    others: Seq<SocketAddress>,
    failure: Seq<char>,
)
    ensures
        address_found(endpoint, Ok(seq![first] + others)) == Ok::<_, Seq<char>>(first),
        address_found(endpoint, Ok(Seq::empty())) == Err::<SocketAddress, _>(
            endpoint + ": no addresses found"@,
        ),
        address_found(endpoint, Err(failure)) == Err::<SocketAddress, _>(
            endpoint + ": failed to resolve: "@ + failure,
        ),
{
    assert((seq![first] + others).first() == first);
}

/// Whatever addresses a look-up gives, the one that is taken stands first among them.
pub proof fn address_found_is_the_first(
    endpoint: Seq<char>,
    found: Result<Vec<SocketAddress>, String>,
)
    ensures
        found matches Ok(addresses) ==> addresses@.len() > 0 ==> address_found(
            endpoint,
            look_up_outcome(found),
        ) == Ok::<_, Seq<char>>(addresses@[0]),
        found matches Ok(addresses) ==> addresses@.len() == 0 ==> address_found(
            endpoint,
            look_up_outcome(found),
        ) == Err::<SocketAddress, _>(endpoint + ": no addresses found"@),
        found matches Err(failure) ==> address_found(endpoint, look_up_outcome(found)) == Err::<
            SocketAddress,
            _,
        >(endpoint + ": failed to resolve: "@ + failure@),
{
}

/// An error about an endpoint holds its reason, and nothing else does.
pub proof fn endpoint_error_holds_its_reason(error: TraderApiQuicClientError, reason: Seq<char>)
    ensures
        is_endpoint_error(error, reason) <==> (error matches TraderApiQuicClientError::InvalidEndpoint(
            found,
        ) && found@ == reason),
{
}

/// The readings of an endpoint are seen whole, each address with its text.
pub proof fn readings_are_seen_whole(literals: Literals)
    ensures
        literals@.socket is Some <==> literals.socket is Some,
        literals.socket matches Some(literal) ==> literals@.socket->0 == (
            literal.address,
            literal.ip_text@,
        ),
        literals@.ip is Some <==> literals.ip is Some,
        literals.ip matches Some(literal) ==> literals@.ip->0 == (literal.ip, literal.text@),
        literals@.bracketed is Some <==> literals.bracketed is Some,
        literals.bracketed matches Some(literal) ==> literals@.bracketed->0 == (
            literal.ip,
            literal.text@,
        ),
{
}

/// A target is seen whole: a server with its address and its name, a host with its port.
pub proof fn targets_are_seen_whole(target: Target)
    ensures
        target matches Target::Known(server) ==> target@ == (TargetModel::Known {
            address: server.address,
            name: server.name@,
        }),
        target matches Target::LookUp { host, port } ==> target@ == (TargetModel::LookUp {
            host: host@,
            port,
        }),
{
}

/// A socket address comes before every other reading, and is kept whole.  An IP address gets the
/// default port and neither flow information nor a scope.  One in brackets counts likewise, where
/// the endpoint is no address without them.
pub proof fn addresses_are_dialed_as_they_read(
    endpoint: Seq<char>,
    inner: Seq<char>,
    socket: SocketAddress,
    ip: IpAddress,
    name: Seq<char>,
    literals: LiteralsModel,
)
    ensures
        literals.socket == Some((socket, name)) ==> target_of(endpoint, literals) == Ok::<
            _,
            Seq<char>,
        >(TargetModel::Known { address: socket, name }),
        literals.socket is None && literals.ip == Some((ip, name)) ==> target_of(endpoint, literals)
            == Ok::<_, Seq<char>>(
            TargetModel::Known {
                address: SocketAddress { ip, port: 443, flow_info: 0, scope_id: 0 },
                name,
            },
        ),
        literals.socket is None && literals.ip is None && literals.bracketed == Some((ip, name))
            && endpoint == seq!['['] + inner + seq![']'] ==> target_of(endpoint, literals) == Ok::<
            _,
            Seq<char>,
        >(
            TargetModel::Known {
                address: SocketAddress { ip, port: 443, flow_info: 0, scope_id: 0 },
                name,
            },
        ),
{
    text::enclosed_text_goes_back_between(endpoint, '[', ']', inner);
}

/// An endpoint that is no address names the host before its last colon, at the port that stands
/// behind it.  Without a colon it is a host at the default port.  Without a host, or without a port
/// behind the colon that can be read, it names nothing, and the reason says which.
pub proof fn hosts_are_looked_up_as_they_read(
    endpoint: Seq<char>,
    host: Seq<char>,
    port_text: Seq<char>,
    literals: LiteralsModel,
)
    requires
        literals.socket is None,
        literals.ip is None,
        literals.bracketed is None || !(endpoint.len() >= 2 && endpoint.first() == '['
            && endpoint.last() == ']'),
    ensures
        !endpoint.contains(':') ==> target_of(endpoint, literals) == Ok::<_, Seq<char>>(
            TargetModel::LookUp { host: endpoint, port: 443 },
        ),
        endpoint == host + seq![':'] + port_text && !port_text.contains(':') ==> target_of(
            endpoint,
            literals,
        ) == if host.len() == 0 {
            Err(endpoint + ": missing host"@)
        } else {
            match outside::port_value(port_text) {
                Some(port) => Ok(TargetModel::LookUp { host, port }),
                None => Err(endpoint + ": invalid port: "@ + outside::port_error_text(port_text)),
            }
        },
{
    text::split_at_last_rejoins(endpoint, ':');
    if endpoint == host + seq![':'] + port_text && !port_text.contains(':') {
        text::split_at_last_is_unique(host, ':', port_text);
    }
    if let Some(inner) = text::enclosed(endpoint, '[', ']') {
        text::enclosed_text_goes_back_between(endpoint, '[', ']', inner);
    }
}

/// A row of digits reads as the port of that number, with or without a `+` before it, unless the
/// number is too great for a port.
pub proof fn port_is_the_number_of_its_digits(digits: Seq<char>)
    requires
        digits.len() > 0,
        forall|i: int| 0 <= i < digits.len() ==> '0' <= #[trigger] digits[i] <= '9',
    ensures
        text::decimal_value(digits) <= 65535 ==> outside::port_value(digits) == Some(
            text::decimal_value(digits) as u16,
        ),
        text::decimal_value(digits) > 65535 ==> outside::port_value(digits) is None,
        outside::port_value(seq!['+'] + digits) == outside::port_value(digits),
{
    text::digits_are_those_of_ascii(digits);
    assert('0' <= digits[0] <= '9');
    assert(outside::port_digits(digits) == digits);
    assert((seq!['+'] + digits).drop_first() =~= digits);
    assert(outside::port_digits(seq!['+'] + digits) == digits);
}

} // verus!

use solana_trader_quic_client_rust::endpoint::{
    accept_port, bracketed_text, pick_server, resolve_endpoint, IpAddress, IpLiteral, Literals,
    Server, SocketAddress, SocketLiteral, Target,
};
use solana_trader_quic_client_rust::TraderApiQuicClientError;

fn no_address() -> Literals {
    Literals { socket: None, ip: None, bracketed: None }
}

fn loopback() -> IpLiteral {
    IpLiteral { ip: IpAddress::V6(1), text: "::1".to_string() }
}

fn look_up(host: &str, port: u16) -> Target {
    Target::LookUp { host: host.to_string(), port }
}

fn reason<T>(result: Result<T, TraderApiQuicClientError>) -> String {
    match result {
        Err(TraderApiQuicClientError::InvalidEndpoint(reason)) => reason,
        _ => panic!("expected the endpoint to be refused"),
    }
}

#[test]
fn host_without_a_port_gets_the_default_one() {
    let target = resolve_endpoint("ny.solana.dex.blxrbdn.com", no_address()).unwrap();
    assert_eq!(target, look_up("ny.solana.dex.blxrbdn.com", 443));
}

#[test]
fn host_with_a_port_keeps_it() {
    assert_eq!(
        resolve_endpoint("localhost:4433", no_address()).unwrap(),
        look_up("localhost", 4433)
    );
    assert_eq!(resolve_endpoint("host:0", no_address()).unwrap(), look_up("host", 0));
    assert_eq!(resolve_endpoint("host:65535", no_address()).unwrap(), look_up("host", 65535));
    assert_eq!(resolve_endpoint("host:+0080", no_address()).unwrap(), look_up("host", 80));
}

#[test]
fn host_ends_at_the_last_colon() {
    assert_eq!(resolve_endpoint("a:b:1", no_address()).unwrap(), look_up("a:b", 1));
    assert_eq!(resolve_endpoint("\u{e9}:\u{df}:1", no_address()).unwrap(), look_up("\u{e9}:\u{df}", 1));
}

#[test]
fn empty_endpoint_is_an_empty_host() {
    assert_eq!(resolve_endpoint("", no_address()).unwrap(), look_up("", 443));
}

#[test]
fn missing_host_is_refused() {
    assert_eq!(reason(resolve_endpoint(":443", no_address())), ":443: missing host");
    assert_eq!(reason(resolve_endpoint(":", no_address())), ":: missing host");
}

#[test]
fn invalid_port_is_refused() {
    assert_eq!(
        reason(resolve_endpoint("host:", no_address())),
        "host:: invalid port: cannot parse integer from empty string"
    );
    assert_eq!(
        reason(resolve_endpoint("host:https", no_address())),
        "host:https: invalid port: invalid digit found in string"
    );
    assert_eq!(
        reason(resolve_endpoint("host:65536", no_address())),
        "host:65536: invalid port: number too large to fit in target type"
    );
    assert_eq!(
        reason(resolve_endpoint("host: 80", no_address())),
        "host: 80: invalid port: invalid digit found in string"
    );
    assert_eq!(
        reason(resolve_endpoint("host:-1", no_address())),
        "host:-1: invalid port: invalid digit found in string"
    );
    assert_eq!(
        reason(resolve_endpoint("host:+", no_address())),
        "host:+: invalid port: invalid digit found in string"
    );
}

#[test]
fn port_is_accepted_as_it_was_read() {
    assert_eq!(accept_port("host:80", Ok(80)).unwrap(), 80);
    assert_eq!(
        reason(accept_port("host:x", Err("no number".to_string()))),
        "host:x: invalid port: no number"
    );
}

#[test]
fn socket_address_is_taken_as_it_is() {
    let address = SocketAddress { ip: IpAddress::V6(1), port: 9000, flow_info: 0, scope_id: 3 };
    let literals = Literals {
        socket: Some(SocketLiteral { address, ip_text: "::1".to_string() }),
        ip: None,
        bracketed: None,
    };
    assert_eq!(
        resolve_endpoint("[::1%3]:9000", literals).unwrap(),
        Target::Known(Server { address, name: "::1".to_string() })
    );
}

#[test]
fn ip_address_gets_the_default_port() {
    let literal = IpLiteral { ip: IpAddress::V4(0x7f00_0001), text: "127.0.0.1".to_string() };
    let literals = Literals { socket: None, ip: Some(literal), bracketed: None };
    let address =
        SocketAddress { ip: IpAddress::V4(0x7f00_0001), port: 443, flow_info: 0, scope_id: 0 };
    assert_eq!(
        resolve_endpoint("127.0.0.1", literals).unwrap(),
        Target::Known(Server { address, name: "127.0.0.1".to_string() })
    );
}

#[test]
fn brackets_around_an_ip_address_make_no_difference() {
    let bare = Literals { socket: None, ip: Some(loopback()), bracketed: None };
    let enclosed = Literals { socket: None, ip: None, bracketed: Some(loopback()) };
    assert_eq!(
        resolve_endpoint("::1", bare).unwrap(),
        resolve_endpoint("[::1]", enclosed).unwrap()
    );
}

#[test]
fn bracketed_reading_counts_within_brackets_only() {
    let literals = Literals { socket: None, ip: None, bracketed: Some(loopback()) };
    assert_eq!(resolve_endpoint("host", literals).unwrap(), look_up("host", 443));
}

#[test]
fn brackets_are_taken_off_where_they_enclose() {
    assert_eq!(bracketed_text("[::1]"), Some("::1"));
    assert_eq!(bracketed_text("[]"), Some(""));
    assert_eq!(bracketed_text("[[x]]"), Some("[x]"));
    assert_eq!(bracketed_text("["), None);
    assert_eq!(bracketed_text("]"), None);
    assert_eq!(bracketed_text(""), None);
    assert_eq!(bracketed_text("[::1]:80"), None);
    assert_eq!(bracketed_text("x[::1]"), None);
}

#[test]
fn first_address_found_is_the_server() {
    let first = SocketAddress::new(IpAddress::V4(1), 443);
    let second = SocketAddress::new(IpAddress::V4(2), 443);
    let server = pick_server("host", "host".to_string(), Ok(vec![first, second])).unwrap();
    assert_eq!(server, Server { address: first, name: "host".to_string() });
}

#[test]
fn failed_look_up_is_reported() {
    let picked = pick_server("host:1", "host".to_string(), Err("no such host".to_string()));
    assert_eq!(reason(picked), "host:1: failed to resolve: no such host");
}

#[test]
fn look_up_that_finds_nothing_is_reported() {
    let picked = pick_server("host:1", "host".to_string(), Ok(vec![]));
    assert_eq!(reason(picked), "host:1: no addresses found");
}

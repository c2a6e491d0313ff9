use solana_trader_quic_client_rust::cli::{
    accept_transaction, closed_text, load_transaction, received_text, response_text,
    submitted_text, usage, Args, LoadError, TransactionSource, CLOSE_WAIT_SECONDS,
};
use solana_trader_quic_client_rust::client::SubmissionMode;

fn parse(line: &[&str]) -> Result<Args, String> {
    let words: Vec<String> = line.iter().map(|word| word.to_string()).collect();
    Args::parse(&words)
}

#[test]
fn arguments_have_defaults() {
    let args = parse(&["--tx-base64", "AQID", "--client-cert", "c", "--client-key", "k"]).unwrap();
    assert_eq!(
        args,
        Args {
            endpoint: "127.0.0.1:9000".to_string(),
            mode: SubmissionMode::Uni,
            transaction: TransactionSource::Base64("AQID".to_string()),
            client_cert: "c".to_string(),
            client_key: "k".to_string(),
        }
    );
}

#[test]
fn every_argument_can_be_given() {
    let args = parse(&[
        "--mode",
        "bi",
        "--endpoint",
        "ny.solana.dex.blxrbdn.com",
        "--tx-file",
        "/tmp/txBase64.txt",
        "--client-cert",
        "/path/to/external_gateway_cert.pem",
        "--client-key",
        "/path/to/external_gateway_key.pem",
    ])
    .unwrap();
    assert_eq!(args.mode, SubmissionMode::Bi);
    assert_eq!(args.endpoint, "ny.solana.dex.blxrbdn.com");
    assert_eq!(args.transaction, TransactionSource::File("/tmp/txBase64.txt".to_string()));
    assert_eq!(args.client_cert, "/path/to/external_gateway_cert.pem");
    assert_eq!(args.client_key, "/path/to/external_gateway_key.pem");
}

#[test]
fn flag_given_last_counts() {
    let args = parse(&[
        "--client-cert", "a", "--client-key", "k", "--tx-file", "f", "--mode", "bi",
        "--client-cert", "b", "--mode", "datagram",
    ])
    .unwrap();
    assert_eq!(args.client_cert, "b");
    assert_eq!(args.mode, SubmissionMode::Datagram);
}

#[test]
fn value_may_look_like_a_flag() {
    let args = parse(&[
        "--endpoint", "--help", "--client-cert", "c", "--client-key", "k", "--tx-file", "f",
    ])
    .unwrap();
    assert_eq!(args.endpoint, "--help");
}

#[test]
fn help_shows_the_usage() {
    assert_eq!(parse(&["--help"]), Err(usage()));
    assert_eq!(parse(&["--mode", "bi", "-h"]), Err(usage()));
    assert!(usage().starts_with("Usage:\n  cargo run --example quic_submit_example -- --endpoint localhost:9000 [--mode uni|bi|datagram] --tx-base64 <base64 signed tx> --client-cert client.pem --client-key client.key\n\nNotes:\n"));
    assert!(usage().ends_with("signed transaction bytes.\n"));
}

#[test]
fn missing_identity_shows_the_usage() {
    assert_eq!(parse(&[]), Err(usage()));
    assert_eq!(parse(&["--client-cert", "c", "--tx-file", "f"]), Err(usage()));
    assert_eq!(parse(&["--client-key", "k", "--tx-file", "f"]), Err(usage()));
}

#[test]
fn exactly_one_transaction_is_needed() {
    let expected =
        format!("exactly one of --tx-base64 or --tx-file is required\n\n{}", usage());
    assert_eq!(parse(&["--client-cert", "c", "--client-key", "k"]), Err(expected.clone()));
    assert_eq!(
        parse(&[
            "--client-cert", "c", "--client-key", "k", "--tx-file", "f", "--tx-base64", "AQID",
        ]),
        Err(expected)
    );
}

#[test]
fn wrong_arguments_are_named() {
    assert_eq!(parse(&["--speed"]), Err(format!("unknown argument: --speed\n\n{}", usage())));
    assert_eq!(
        parse(&["--endpoint"]),
        Err(format!("missing value for --endpoint\n\n{}", usage()))
    );
    assert_eq!(
        parse(&["--mode", "tri"]),
        Err(format!("invalid --mode value: tri\n\n{}", usage()))
    );
}

#[test]
fn modes_are_read_and_named() {
    assert_eq!(SubmissionMode::parse("uni"), Ok(SubmissionMode::Uni));
    assert_eq!(SubmissionMode::parse("bi"), Ok(SubmissionMode::Bi));
    assert_eq!(SubmissionMode::parse("datagram"), Ok(SubmissionMode::Datagram));
    assert!(SubmissionMode::parse("Uni").is_err());
    assert_eq!(SubmissionMode::Uni.name(), "uni stream");
    assert_eq!(SubmissionMode::Bi.name(), "bi stream");
    assert_eq!(SubmissionMode::Datagram.name(), "datagram");
}

#[test]
fn transaction_is_decoded_without_the_white_space_around_it() {
    assert_eq!(load_transaction("AQID").unwrap(), vec![1, 2, 3]);
    assert_eq!(
        load_transaction("\u{feff}AQID").map_err(|error| matches!(error, LoadError::Base64(_))),
        Err(true)
    );
    assert_eq!(load_transaction("\u{3000}\t AQID\u{a0}\u{85}\r\n").unwrap(), vec![1, 2, 3]);
    assert_eq!(load_transaction("aGVsbG8=\n").unwrap(), b"hello".to_vec());
}

#[test]
fn empty_transaction_is_refused() {
    assert!(matches!(load_transaction(""), Err(LoadError::Empty)));
    assert!(matches!(load_transaction(" \n\u{2028}"), Err(LoadError::Empty)));
    assert!(matches!(accept_transaction(Ok(vec![])), Err(LoadError::Empty)));
    assert_eq!(LoadError::Empty.message(), "transaction payload is empty");
}

#[test]
fn text_that_is_no_base64_is_refused() {
    let error = load_transaction("AQ ID").unwrap_err();
    assert!(matches!(error, LoadError::Base64(base64::DecodeError::InvalidByte(2, b' '))));
    assert_eq!(error.message(), base64::DecodeError::InvalidByte(2, b' ').to_string());
    assert!(matches!(
        accept_transaction(Err(base64::DecodeError::InvalidPadding)),
        Err(LoadError::Base64(base64::DecodeError::InvalidPadding))
    ));
}

#[test]
fn submission_is_summed_up() {
    assert_eq!(
        submitted_text(1232, "localhost:9000", SubmissionMode::Bi),
        "submitted 1232 transaction bytes to localhost:9000 over QUIC bi stream"
    );
}

#[test]
fn response_is_shown_where_it_is_text() {
    assert_eq!(received_text("5VERv8"), "received response: 5VERv8");
    assert_eq!(response_text(b"5VERv8").unwrap(), "received response: 5VERv8");
    assert_eq!(response_text(b"").unwrap(), "received response: ");
    assert_eq!(response_text(&[0xc3, 0xa9]).unwrap(), "received response: \u{e9}");
    assert_eq!(response_text(&[b'a', 0xff]).unwrap_err().valid_up_to(), 1);
    assert!(response_text(&[0xed, 0xa0, 0x80]).is_err());
    assert!(response_text(&[0xc0, 0x80]).is_err());
}

#[test]
fn early_close_is_reported() {
    assert_eq!(CLOSE_WAIT_SECONDS, 1);
    assert_eq!(
        closed_text("closed by peer: 0"),
        "server closed QUIC connection after submit: closed by peer: 0"
    );
}

use rustls::pki_types::CertificateDer;
use solana_trader_quic_client_rust::identity::PrivateKeyDer;
use solana_trader_quic_client_rust::pem::{
    accept_certificates, certificates_from_pem, key_search_step, private_key_from_pem, KeySearch,
    PemItem,
};
use solana_trader_quic_client_rust::TraderApiQuicClientError;

fn section(label: &str, body: &str) -> String {
    format!("-----BEGIN {label}-----\n{body}\n-----END {label}-----\n")
}

fn pem_text<T>(result: Result<T, TraderApiQuicClientError>) -> String {
    match result {
        Err(TraderApiQuicClientError::Pem(text)) => text,
        _ => panic!("expected a fault in the data"),
    }
}

#[test]
fn certificates_are_found_among_other_sections() {
    let data = String::from("a comment\n")
        + &section("CERTIFICATE", "AQID")
        + &section("PRIVATE KEY", "BAUG")
        + &section("SOMETHING ELSE", "AAAA")
        + &section("CERTIFICATE", "Bwg=");
    assert_eq!(
        certificates_from_pem(data.as_bytes()).unwrap(),
        vec![CertificateDer::from(vec![1, 2, 3]), CertificateDer::from(vec![7, 8])]
    );
}

#[test]
fn data_without_certificates_is_refused() {
    let expected = "no certificates found in PEM input";
    assert_eq!(pem_text(certificates_from_pem(b"")), expected);
    let data = section("PRIVATE KEY", "BAUG");
    assert_eq!(pem_text(certificates_from_pem(data.as_bytes())), expected);
}

#[test]
fn fault_behind_a_certificate_spoils_the_chain() {
    let data = section("CERTIFICATE", "AQID") + "-----BEGIN CERTIFICATE-----\nAQID\n";
    let text = pem_text(certificates_from_pem(data.as_bytes()));
    assert_eq!(text, "section end \"CERTIFICATE\" missing");
}

#[test]
fn fault_behind_a_key_does_not_matter() {
    let broken = "-----BEGIN CERTIFICATE\n";
    let data = section("PRIVATE KEY", "BAUG") + broken;
    let key = private_key_from_pem(data.as_bytes()).unwrap();
    assert_eq!(key, PrivateKeyDer::Pkcs8(vec![4, 5, 6].into()));

    let data = String::from(broken) + &section("PRIVATE KEY", "BAUG");
    assert!(private_key_from_pem(data.as_bytes()).is_err());
}

#[test]
fn first_key_is_taken_whatever_its_format() {
    let certificate = section("CERTIFICATE", "AQID");
    let first = certificate.clone() + &section("RSA PRIVATE KEY", "AQ==");
    let second = section("EC PRIVATE KEY", "Ag==");
    let third = section("PRIVATE KEY", "Aw==");

    let data = first.clone() + &second + &third;
    assert_eq!(private_key_from_pem(data.as_bytes()).unwrap(), PrivateKeyDer::Pkcs1(vec![1].into()));
    let data = certificate.clone() + &second + &third + &first;
    assert_eq!(private_key_from_pem(data.as_bytes()).unwrap(), PrivateKeyDer::Sec1(vec![2].into()));
    let data = section("PUBLIC KEY", "AAAA") + &third + &second;
    assert_eq!(private_key_from_pem(data.as_bytes()).unwrap(), PrivateKeyDer::Pkcs8(vec![3].into()));
}

#[test]
fn data_without_a_key_is_refused() {
    let expected = "no private key found in PEM input";
    assert_eq!(pem_text(private_key_from_pem(b"no sections here")), expected);
    let data = section("CERTIFICATE", "AQID") + &section("PUBLIC KEY", "AAAA");
    assert_eq!(pem_text(private_key_from_pem(data.as_bytes())), expected);
}

#[test]
fn fault_before_a_key_is_reported() {
    let data = String::from("-----BEGIN PRIVATE\n");
    let text = pem_text(private_key_from_pem(data.as_bytes()));
    assert_eq!(text, "illegal section start: \"-----BEGIN PRIVATE\\n\"");
}

#[test]
fn accepting_certificates_keeps_them_or_says_why_not() {
    let chain = vec![CertificateDer::from(vec![1])];
    assert_eq!(accept_certificates(Ok(chain)).unwrap(), vec![CertificateDer::from(vec![1])]);
    assert_eq!(pem_text(accept_certificates(Err("broken".to_string()))), "broken");
    assert_eq!(
        pem_text(accept_certificates(Ok(vec![]))),
        "no certificates found in PEM input"
    );
}

#[test]
fn key_search_goes_on_until_a_key_a_fault_or_the_end() {
    assert_eq!(
        key_search_step(Ok(Some(PemItem::Pkcs1Key(vec![1].into())))),
        KeySearch::Found(PrivateKeyDer::Pkcs1(vec![1].into()))
    );
    assert_eq!(
        key_search_step(Ok(Some(PemItem::Pkcs8Key(vec![2].into())))),
        KeySearch::Found(PrivateKeyDer::Pkcs8(vec![2].into()))
    );
    assert_eq!(
        key_search_step(Ok(Some(PemItem::Sec1Key(vec![3].into())))),
        KeySearch::Found(PrivateKeyDer::Sec1(vec![3].into()))
    );
    assert_eq!(
        key_search_step(Ok(Some(PemItem::X509Certificate(vec![4].into())))),
        KeySearch::GoOn
    );
    assert_eq!(key_search_step(Ok(Some(PemItem::Other))), KeySearch::GoOn);
    assert_eq!(key_search_step(Ok(None)), KeySearch::Exhausted);
    assert_eq!(
        key_search_step(Err("fault".to_string())),
        KeySearch::Failed("fault".to_string())
    );
}

#[test]
fn nothing_after_the_first_key_is_looked_at() {
    let data = section("CERTIFICATE", "AQID") + &section("PRIVATE KEY", "BAUG");
    let expected = PrivateKeyDer::Pkcs8(vec![4, 5, 6].into());
    assert_eq!(private_key_from_pem(data.as_bytes()).unwrap(), expected);
    for more in ["-----BEGIN CERTIFICATE\n", "-----BEGIN X-----\n", "rubbish", "\n\r"] {
        let longer = data.clone() + more;
        assert_eq!(private_key_from_pem(longer.as_bytes()).unwrap(), expected);
    }
    let longer = data.clone() + &section("EC PRIVATE KEY", "Ag==");
    assert_eq!(private_key_from_pem(longer.as_bytes()).unwrap(), expected);
}

#[test]
fn appended_chains_give_both() {
    let first = section("CERTIFICATE", "AQID") + &section("CERTIFICATE", "BA==") + "note\r";
    let second = String::from("\n") + &section("CERTIFICATE", "AQID");
    let mut expected = certificates_from_pem(first.as_bytes()).unwrap();
    expected.extend(certificates_from_pem(second.as_bytes()).unwrap());
    let both = first.clone() + &second;
    assert_eq!(certificates_from_pem(both.as_bytes()).unwrap(), expected);
    assert_eq!(expected.len(), 3);

    let longer = first.clone() + &section("PRIVATE KEY", "BAUG");
    assert_eq!(certificates_from_pem(longer.as_bytes()).unwrap().len(), 2);
    let broken = first + "-----BEGIN CERTIFICATE\n";
    assert!(certificates_from_pem(broken.as_bytes()).is_err());
}

//! Certificates and private keys out of PEM data.

use rustls::pki_types::{
    CertificateDer, PrivatePkcs1KeyDer, PrivatePkcs8KeyDer, PrivateSec1KeyDer,
};
use vstd::prelude::*;

use crate::error::TraderApiQuicClientError;
use crate::identity;
use crate::identity::{PrivateKeyDer, PrivateKeyModel};
use crate::outside;

verus! {

/// A section of PEM data, decoded.  `Other` is a section that holds neither a certificate nor a
/// private key.
#[derive(Debug, PartialEq, Eq)]
pub enum PemItem {
    X509Certificate(CertificateDer<'static>),
    Pkcs1Key(PrivatePkcs1KeyDer<'static>),
    Pkcs8Key(PrivatePkcs8KeyDer<'static>),
    Sec1Key(PrivateSec1KeyDer<'static>),
    Other,
}

/// A section of PEM data as its kind and the bytes that it holds.
pub enum PemSection {
    X509Certificate(Seq<u8>),
    Pkcs1Key(Seq<u8>),
    Pkcs8Key(Seq<u8>),
    Sec1Key(Seq<u8>),
    Other,
}

impl View for PemItem {
    type V = PemSection;

    open spec fn view(&self) -> PemSection {
        match self {
            PemItem::X509Certificate(certificate) => PemSection::X509Certificate(
                outside::certificate_bytes(*certificate),
            ),
            PemItem::Pkcs1Key(key) => PemSection::Pkcs1Key(outside::pkcs1_bytes(*key)),
            PemItem::Pkcs8Key(key) => PemSection::Pkcs8Key(outside::pkcs8_bytes(*key)),
            PemItem::Sec1Key(key) => PemSection::Sec1Key(outside::sec1_bytes(*key)),
            PemItem::Other => PemSection::Other,
        }
    }
}

/// The outcome of reading one section, with the section and the error text as sequences.
pub open spec fn read_outcome(read: Result<Option<PemItem>, String>) -> Result<
    Option<PemSection>,
    Seq<char>,
> {
    match read {
        Ok(Some(item)) => Ok(Some(item@)),
        Ok(None) => Ok(None),
        Err(error) => Err(error@),
    }
}

/// PEM data read from front to back: its sections up to the end or up to the first fault, and
/// the text of that fault.
pub struct PemDocument {
    pub sections: Seq<PemSection>,
    pub error: Option<Seq<char>>,
}

/// The sections of some PEM data.
pub open spec fn document(data: Seq<u8>) -> PemDocument
    decreases data.len(),
{
    let (read, rest) = outside::pem_read_one(data);
    match read {
        Ok(Some(section)) if rest.len() < data.len() => {
            let following = document(rest);
            PemDocument {
                sections: seq![section] + following.sections,
                error: following.error,
            }
        },
        Err(error) => PemDocument { sections: Seq::empty(), error: Some(error) },
        _ => PemDocument { sections: Seq::empty(), error: None },
    }
}

/// Whether some data consists of whole lines: it is empty, or ends with the end of a line.
pub open spec fn ends_line(data: Seq<u8>) -> bool {
    data.len() == 0 || data.last() == 0x0a || data.last() == 0x0d
}

/// One document after another that has no fault.
pub open spec fn appended(first: PemDocument, second: PemDocument) -> PemDocument {
    PemDocument { sections: first.sections + second.sections, error: second.error }
}

/// The certificates among some sections, in order.
pub open spec fn certificates_in(sections: Seq<PemSection>) -> Seq<Seq<u8>>
    decreases sections.len(),
{
    if sections.len() == 0 {
        Seq::empty()
    } else {
        let following = certificates_in(sections.drop_first());
        match sections.first() {
            PemSection::X509Certificate(der) => seq![der] + following,
            _ => following,
        }
    }
}

/// The private key that a section holds.
pub open spec fn key_in(section: PemSection) -> Option<PrivateKeyModel> {
    match section {
        PemSection::Pkcs1Key(der) => Some(PrivateKeyModel::Pkcs1(der)),
        PemSection::Pkcs8Key(der) => Some(PrivateKeyModel::Pkcs8(der)),
        PemSection::Sec1Key(der) => Some(PrivateKeyModel::Sec1(der)),
        _ => None,
    }
}

/// The first private key among some sections.
pub open spec fn first_key(sections: Seq<PemSection>) -> Option<PrivateKeyModel>
    decreases sections.len(),
{
    if sections.len() == 0 {
        None
    } else if key_in(sections.first()) is Some {
        key_in(sections.first())
    } else {
        first_key(sections.drop_first())
    }
}

/// The chain that some PEM data gives: all of its certificates, of which there is at least one,
/// or the text of why there is none.
pub open spec fn chain_of(document: PemDocument) -> Result<Seq<Seq<u8>>, Seq<char>> {
    match document.error {
        Some(error) => Err(error),
        None => {
            if certificates_in(document.sections).len() == 0 {
                Err("no certificates found in PEM input"@)
            } else {
                Ok(certificates_in(document.sections))
            }
        },
    }
}

/// The private key that some PEM data gives: the first one, or the text of why there is none.
pub open spec fn key_of(document: PemDocument) -> Result<PrivateKeyModel, Seq<char>> {
    match first_key(document.sections) {
        Some(key) => Ok(key),
        None => match document.error {
            Some(error) => Err(error),
            None => Err("no private key found in PEM input"@),
        },
    }
}

/// Whether an error says that PEM data could not be used, with this text.
pub open spec fn is_pem_error(error: TraderApiQuicClientError, text: Seq<char>) -> bool {
    error matches TraderApiQuicClientError::Pem(found) && found@ == text
}

/// Accepts the certificates that were read if there is at least one.
pub fn accept_certificates(
    certificates: Result<Vec<CertificateDer<'static>>, String>,
) -> (accepted: Result<Vec<CertificateDer<'static>>, TraderApiQuicClientError>)
    ensures
        match certificates {
            Err(text) => accepted matches Err(error) && is_pem_error(error, text@),
            Ok(chain) => if chain@.len() == 0 {
                accepted matches Err(error) && is_pem_error(
                    error,
                    "no certificates found in PEM input"@,
                )
            } else {
                accepted == Ok::<_, TraderApiQuicClientError>(chain)
            },
        },
{
    match certificates {
        Err(text) => Err(TraderApiQuicClientError::Pem(text)),
        Ok(chain) => {
            if chain.is_empty() {
                Err(TraderApiQuicClientError::Pem("no certificates found in PEM input".to_owned()))
            } else {
                Ok(chain)
            }
        },
    }
}

/// All certificates of some PEM data.
///
/// Where the data consists of whole lines and gives a chain, the certificates of whatever is
/// appended to it are added to that chain, in order, and only a fault in what is appended leaves
/// none.
pub fn certificates_from_pem(pem: &[u8]) -> (chain: Result<
    Vec<CertificateDer<'static>>,
    TraderApiQuicClientError,
>)
    ensures
        match chain_of(document(pem@)) {
            Ok(expected) => chain matches Ok(chain) && identity::chain_bytes(chain@) == expected,
            Err(text) => chain matches Err(error) && is_pem_error(error, text),
        },
        chain matches Ok(chain) ==> ends_line(pem@) ==> forall|more: Seq<u8>|
            chain_of(#[trigger] document(pem@ + more)) == match document(more).error {
                Some(error) => Err(error),
                None => Ok(
                    identity::chain_bytes(chain@) + certificates_in(document(more).sections),
                ),
            },
{
    let read = outside::certs(pem);
    proof {
        if read is Ok && ends_line(pem@) {
            assert forall|more: Seq<u8>| certificates_in(#[trigger] document(pem@ + more).sections)
                == certificates_in(document(pem@).sections) + certificates_in(
                document(more).sections,
            ) by {
                certificates_add_up(document(pem@).sections, document(more).sections);
            }
        }
    }
    accept_certificates(read)
}

/// What the search for a private key does with one reading.
#[derive(Debug, PartialEq, Eq)]
pub enum KeySearch {
    Found(PrivateKeyDer),
    Failed(String),
    Exhausted,
    GoOn,
}

/// Decides, on one reading, whether the search for a private key is over.
pub fn key_search_step(read: Result<Option<PemItem>, String>) -> (step: KeySearch)
    ensures
        match read_outcome(read) {
            Err(error) => step matches KeySearch::Failed(text) && text@ == error,
            Ok(None) => step == KeySearch::Exhausted,
            Ok(Some(section)) => match key_in(section) {
                Some(key) => step matches KeySearch::Found(found) && found@ == key,
                None => step == KeySearch::GoOn,
            },
        },
        read matches Ok(Some(PemItem::Pkcs1Key(key))) ==> step == KeySearch::Found(
            PrivateKeyDer::Pkcs1(key),
        ),
        read matches Ok(Some(PemItem::Pkcs8Key(key))) ==> step == KeySearch::Found(
            PrivateKeyDer::Pkcs8(key),
        ),
        read matches Ok(Some(PemItem::Sec1Key(key))) ==> step == KeySearch::Found(
            PrivateKeyDer::Sec1(key),
        ),
{
    match read {
        Err(error) => KeySearch::Failed(error),
        Ok(None) => KeySearch::Exhausted,
        Ok(Some(PemItem::Pkcs1Key(key))) => KeySearch::Found(PrivateKeyDer::Pkcs1(key)),
        Ok(Some(PemItem::Pkcs8Key(key))) => KeySearch::Found(PrivateKeyDer::Pkcs8(key)),
        Ok(Some(PemItem::Sec1Key(key))) => KeySearch::Found(PrivateKeyDer::Sec1(key)),
        Ok(Some(_)) => KeySearch::GoOn,
    }
}

/// The first private key of some PEM data.
///
/// Where the data consists of whole lines and holds a key, nothing that is appended to it makes a
/// difference.
pub fn private_key_from_pem(pem: &[u8]) -> (key: Result<PrivateKeyDer, TraderApiQuicClientError>)
    ensures
        match key_of(document(pem@)) {
            Ok(expected) => key matches Ok(key) && key@ == expected,
            Err(text) => key matches Err(error) && is_pem_error(error, text),
        },
        key matches Ok(key) ==> ends_line(pem@) ==> forall|more: Seq<u8>|
            key_of(#[trigger] document(pem@ + more)) == Ok::<_, Seq<char>>(key@),
{
    let mut rest: &[u8] = pem;
    loop
        invariant
            key_of(document(rest@)) == key_of(document(pem@)),
            ends_line(pem@) ==> ends_line(rest@),
            ends_line(pem@) ==> forall|more: Seq<u8>|
                key_of(#[trigger] document(pem@ + more)) == key_of(document(rest@ + more)),
        decreases rest@.len(),
    {
        let (read, unread) = outside::read_one(rest);
        match key_search_step(read) {
            KeySearch::Found(key) => {
                return Ok(key);
            },
            KeySearch::Failed(text) => {
                return Err(TraderApiQuicClientError::Pem(text));
            },
            KeySearch::Exhausted => {
                return Err(
                    TraderApiQuicClientError::Pem("no private key found in PEM input".to_owned()),
                );
            },
            KeySearch::GoOn => {
                proof {
                    let following = document(unread@);
                    assert(document(rest@).sections.drop_first() =~= following.sections);
                    if ends_line(pem@) {
                        assert forall|more: Seq<u8>|
                            key_of(#[trigger] document(pem@ + more)) == key_of(
                                document(unread@ + more),
                            ) by {
                            let longer = outside::pem_read_one(rest@ + more);
                            assert(longer.1 == unread@ + more);
                            assert(document(rest@ + more).sections.drop_first() =~= document(
                                unread@ + more,
                            ).sections);
                        }
                    }
                }
                rest = unread;
            },
        }
    }
}

/// A chain that PEM data gives is never empty.
pub proof fn chain_is_never_empty(document: PemDocument)
    ensures
        chain_of(document) matches Ok(chain) ==> chain.len() > 0,
{
}

/// Certificates are taken from wherever they stand: those of two runs of sections are those of the
/// one, followed by those of the other.
pub proof fn certificates_add_up(left: Seq<PemSection>, right: Seq<PemSection>)
    ensures
        certificates_in(left + right) == certificates_in(left) + certificates_in(right),
    decreases left.len(),
{
    if left.len() == 0 {
        assert(left + right =~= right);
        assert(certificates_in(left) + certificates_in(right) =~= certificates_in(right));
    } else {
        certificates_add_up(left.drop_first(), right);
        assert((left + right).drop_first() =~= left.drop_first() + right);
        assert((left + right).first() == left.first());
        assert(certificates_in(left + right) =~= certificates_in(left) + certificates_in(right));
    }
}

/// The first private key wins: neither what follows it in the data nor a fault behind it makes a
/// difference.
pub proof fn first_key_wins(
    left: Seq<PemSection>,
    right: Seq<PemSection>,
    error: Option<Seq<char>>,
)
    requires
        first_key(left) is Some,
    ensures
        key_of(PemDocument { sections: left + right, error }) == Ok::<_, Seq<char>>(
            first_key(left)->0,
        ),
    decreases left.len(),
{
    assert((left + right).first() == left.first());
    if key_in(left.first()) is None {
        first_key_wins(left.drop_first(), right, error);
        assert((left + right).drop_first() =~= left.drop_first() + right);
    }
}

/// A fault anywhere in the data leaves no chain, whatever certificates come before it.
pub proof fn fault_leaves_no_chain(sections: Seq<PemSection>, error: Seq<char>)
    ensures
        chain_of(PemDocument { sections, error: Some(error) }) == Err::<Seq<Seq<u8>>, _>(error),
{
}

/// A section that holds a private key gives that key in the same format, and every other gives
/// none.
pub proof fn key_keeps_its_format(der: Seq<u8>)
    ensures
        key_in(PemSection::Pkcs1Key(der)) == Some(PrivateKeyModel::Pkcs1(der)),
        key_in(PemSection::Pkcs8Key(der)) == Some(PrivateKeyModel::Pkcs8(der)),
        key_in(PemSection::Sec1Key(der)) == Some(PrivateKeyModel::Sec1(der)),
        key_in(PemSection::X509Certificate(der)) is None,
        key_in(PemSection::Other) is None,
{
}

/// Each certificate gives its bytes, once, and a section that is none gives nothing.
pub proof fn each_certificate_is_kept_once(section: PemSection, sections: Seq<PemSection>)
    ensures
        certificates_in(Seq::empty()) == Seq::<Seq<u8>>::empty(),
        section matches PemSection::X509Certificate(der) ==> certificates_in(
            seq![section] + sections,
        ) == seq![der] + certificates_in(sections),
        section !is X509Certificate ==> certificates_in(seq![section] + sections)
            == certificates_in(sections),
{
    assert((seq![section] + sections).drop_first() =~= sections);
    assert((seq![section] + sections).first() == section);
}

/// Sections without a private key before one make no difference: the key is the first that comes,
/// whatever its format and whatever follows it, and there is none where no section holds one.
pub proof fn key_is_the_first_that_comes(
    before: Seq<PemSection>,
    section: PemSection,
    after: Seq<PemSection>,
    error: Option<Seq<char>>,
)
    requires
        forall|i: int|
            0 <= i < before.len() ==> (#[trigger] before[i]) is X509Certificate
                || before[i] is Other,
    ensures
        ({
            let key = key_of(PemDocument { sections: before + seq![section] + after, error });
            &&& section matches PemSection::Pkcs1Key(der) ==> key == Ok::<_, Seq<char>>(
                PrivateKeyModel::Pkcs1(der),
            )
            &&& section matches PemSection::Pkcs8Key(der) ==> key == Ok::<_, Seq<char>>(
                PrivateKeyModel::Pkcs8(der),
            )
            &&& section matches PemSection::Sec1Key(der) ==> key == Ok::<_, Seq<char>>(
                PrivateKeyModel::Sec1(der),
            )
        }),
        key_of(PemDocument { sections: before, error }) == Err::<PrivateKeyModel, _>(
            match error {
                Some(text) => text,
                None => "no private key found in PEM input"@,
            },
        ),
    decreases before.len(),
{
    let sections = before + seq![section] + after;
    if before.len() == 0 {
        assert(sections.first() == section);
    } else {
        let rest = before.drop_first();
        assert(before[0] is X509Certificate || before[0] is Other);
        assert(sections.first() == before[0]);
        assert(sections.drop_first() =~= rest + seq![section] + after);
        assert forall|i: int| 0 <= i < rest.len() implies (#[trigger] rest[i]) is X509Certificate
            || rest[i] is Other by {
            assert(before[i + 1] is X509Certificate || before[i + 1] is Other);
        }
        key_is_the_first_that_comes(rest, section, after, error);
    }
}

/// A chain is all the certificates of data without a fault, and there is none only where the data
/// has a fault or no certificate.
pub proof fn chain_is_all_certificates(document: PemDocument)
    ensures
        document.error matches Some(text) ==> chain_of(document) == Err::<Seq<Seq<u8>>, _>(text),
        document.error is None && certificates_in(document.sections).len() > 0 ==> chain_of(
            document,
        ) == Ok::<_, Seq<char>>(certificates_in(document.sections)),
        document.error is None && certificates_in(document.sections).len() == 0 ==> chain_of(
            document,
        ) == Err::<Seq<Seq<u8>>, _>("no certificates found in PEM input"@),
{
}

/// Data is read section by section: what is read first stands first, and the rest of the data
/// follows it.  Nothing stands behind a fault or the end.
pub proof fn document_is_read_in_order(data: Seq<u8>, section: PemSection, rest: Seq<u8>)
    ensures
        rest.len() < data.len() && outside::pem_read_one(data) == (
            Ok::<_, Seq<char>>(Some(section)),
            rest,
        ) ==> document(data).sections == seq![section] + document(rest).sections && document(
            data,
        ).error == document(rest).error,
        outside::pem_read_one(data).0 matches Err(text) ==> document(data).sections.len() == 0
            && document(data).error == Some(text),
        outside::pem_read_one(data).0 == Ok::<_, Seq<char>>(None::<PemSection>) ==> document(
            data,
        ).sections.len() == 0 && document(data).error is None,
{
}

/// An error about PEM data holds its text, and nothing else does.
pub proof fn pem_error_holds_its_text(error: TraderApiQuicClientError, text: Seq<char>)
    ensures
        is_pem_error(error, text) <==> (error matches TraderApiQuicClientError::Pem(found) && found@
            == text),
{
}

/// A section is seen whole, as its kind and its bytes.
pub proof fn sections_are_seen_whole(item: PemItem)
    ensures
        match item {
            PemItem::X509Certificate(der) => item@ == PemSection::X509Certificate(
                outside::certificate_bytes(der),
            ),
            PemItem::Pkcs1Key(key) => item@ == PemSection::Pkcs1Key(outside::pkcs1_bytes(key)),
            PemItem::Pkcs8Key(key) => item@ == PemSection::Pkcs8Key(outside::pkcs8_bytes(key)),
            PemItem::Sec1Key(key) => item@ == PemSection::Sec1Key(outside::sec1_bytes(key)),
            PemItem::Other => item@ is Other,
        },
        read_outcome(Ok(Some(item))) == Ok::<_, Seq<char>>(Some(item@)),
        read_outcome(Ok(None)) == Ok::<_, Seq<char>>(None::<PemSection>),
{
}

} // verus!

//! The client's identity: its certificate chain and its private key, each DER-encoded.

use rustls::pki_types::{
    CertificateDer, PrivatePkcs1KeyDer, PrivatePkcs8KeyDer, PrivateSec1KeyDer,
};
use vstd::prelude::*;

use crate::outside;

verus! {

/// A DER-encoded private key, by the format of its encoding.  Its `Debug` text leaves the bytes
/// out.
#[derive(Debug, PartialEq, Eq)]
pub enum PrivateKeyDer {
    Pkcs1(PrivatePkcs1KeyDer<'static>),
    Sec1(PrivateSec1KeyDer<'static>),
    Pkcs8(PrivatePkcs8KeyDer<'static>),
}

/// A private key as the format and the bytes of its encoding.
pub enum PrivateKeyModel {
    Pkcs1(Seq<u8>),
    Sec1(Seq<u8>),
    Pkcs8(Seq<u8>),
}

impl View for PrivateKeyDer {
    type V = PrivateKeyModel;

    open spec fn view(&self) -> PrivateKeyModel {
        match self {
            PrivateKeyDer::Pkcs1(key) => PrivateKeyModel::Pkcs1(outside::pkcs1_bytes(*key)),
            PrivateKeyDer::Sec1(key) => PrivateKeyModel::Sec1(outside::sec1_bytes(*key)),
            PrivateKeyDer::Pkcs8(key) => PrivateKeyModel::Pkcs8(outside::pkcs8_bytes(*key)),
        }
    }
}

/// The certificates of a chain as byte sequences.
pub open spec fn chain_bytes(chain: Seq<CertificateDer<'static>>) -> Seq<Seq<u8>> {
    Seq::new(chain.len(), |i: int| outside::certificate_bytes(chain[i]))
}

/// A chain is seen whole, certificate by certificate and in order.
pub proof fn chain_is_seen_whole(chain: Seq<CertificateDer<'static>>)
    ensures
        chain_bytes(chain).len() == chain.len(),
        forall|i: int|
            0 <= i < chain.len() ==> #[trigger] chain_bytes(chain)[i] == outside::certificate_bytes(
                chain[i],
            ),
{
}

/// A key is seen whole, in the format that it is encoded in.
pub proof fn key_is_seen_whole(key: PrivateKeyDer)
    ensures
        key matches PrivateKeyDer::Pkcs1(der) ==> key@ == PrivateKeyModel::Pkcs1(
            outside::pkcs1_bytes(der),
        ),
        key matches PrivateKeyDer::Sec1(der) ==> key@ == PrivateKeyModel::Sec1(
            outside::sec1_bytes(der),
        ),
        key matches PrivateKeyDer::Pkcs8(der) ==> key@ == PrivateKeyModel::Pkcs8(
            outside::pkcs8_bytes(der),
        ),
{
}

} // verus!

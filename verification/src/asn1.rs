//! The DER structures in which the remote service hands out a public key,
//! decoded into plain bytes.

use crate::key::{RsaPublicKey, RsaPublicKeyView};
use spki::der::{Decode, Tagged};
use vstd::prelude::*;

verus! {

/// The error of the `spki` crate.
#[verifier::external_type_specification]
#[verifier::external_body]
pub struct ExSpkiError(spki::Error);

/// The error of the `der` crate.
#[verifier::external_type_specification]
#[verifier::external_body]
pub struct ExDerError(spki::der::Error);

/// An ASN.1 value of any type: its tag octet and the bytes of its value.
#[derive(Clone, Debug, PartialEq, Eq)]
pub struct Any {
    pub tag: u8,
    pub value: Vec<u8>,
}

pub struct AnyView {
    pub tag: u8,
    pub value: Seq<u8>,
}

impl View for Any {
    type V = AnyView;

    open spec fn view(&self) -> AnyView {
        AnyView { tag: self.tag, value: self.value@ }
    }
}

/// An X.509 `AlgorithmIdentifier`: the value bytes of the algorithm's object
/// identifier, and the parameters if there are any.
#[derive(Clone, Debug, PartialEq, Eq)]
pub struct AlgorithmIdentifier {
    pub oid: Vec<u8>,
    pub parameters: Option<Any>,
}

pub struct AlgorithmIdentifierView {
    pub oid: Seq<u8>,
    pub parameters: Option<AnyView>,
}

impl View for AlgorithmIdentifier {
    type V = AlgorithmIdentifierView;

    open spec fn view(&self) -> AlgorithmIdentifierView {
        AlgorithmIdentifierView {
            oid: self.oid@,
            parameters: match self.parameters {
                Some(p) => Some(p@),
                None => None,
            },
        }
    }
}

/// An X.509 `SubjectPublicKeyInfo`: the algorithm, and the bytes of the key's
/// bit string.
#[derive(Clone, Debug, PartialEq, Eq)]
pub struct SubjectPublicKeyInfo {
    pub algorithm: AlgorithmIdentifier,
    pub subject_public_key: Vec<u8>,
}

pub struct SubjectPublicKeyInfoView {
    pub algorithm: AlgorithmIdentifierView,
    pub subject_public_key: Seq<u8>,
}

impl View for SubjectPublicKeyInfo {
    type V = SubjectPublicKeyInfoView;

    open spec fn view(&self) -> SubjectPublicKeyInfoView {
        SubjectPublicKeyInfoView {
            algorithm: self.algorithm@,
            subject_public_key: self.subject_public_key@,
        }
    }
}

/// The identifier of RSA keys: the object identifier 1.2.840.113549.1.1.1
/// with parameters NULL.
pub open spec fn rsa_encryption() -> AlgorithmIdentifierView {
    AlgorithmIdentifierView {
        oid: seq![0x2au8, 0x86u8, 0x48u8, 0x86u8, 0xf7u8, 0x0du8, 0x01u8, 0x01u8, 0x01u8],
        parameters: Some(AnyView { tag: 0x05u8, value: Seq::<u8>::empty() }),
    }
}

/// What `der` decodes as a `SubjectPublicKeyInfo`, if they decode as one.
pub uninterp spec fn spki_decoding(der: Seq<u8>) -> Option<SubjectPublicKeyInfoView>;

/// What `der` decodes as a PKCS#1 `RSAPublicKey`, if they decode as one.
pub uninterp spec fn rsa_public_key_decoding(der: Seq<u8>) -> Option<RsaPublicKeyView>;

/// `spki::SubjectPublicKeyInfoRef::try_from` on a byte slice. The result is
/// trusted to be a function of the bytes alone; nothing more is claimed of it.
/// The fields are copied out as they stand: the object identifier without tag
/// and length, the parameters as tag octet and value, the bit string without
/// its count of unused bits.
#[verifier::external_body]
pub(crate) fn decode_spki(der: &[u8]) -> (r: Result<SubjectPublicKeyInfo, spki::Error>)
    ensures
        r is Ok <==> spki_decoding(der@) is Some,
        r matches Ok(info) ==> spki_decoding(der@) == Some(info@),
{
    let info = spki::SubjectPublicKeyInfoRef::try_from(der)?;
    Ok(SubjectPublicKeyInfo {
        algorithm: AlgorithmIdentifier {
            oid: info.algorithm.oid.as_bytes().to_vec(),
            parameters: info.algorithm.parameters.map(|p| Any { tag: p.tag().octet(), value: p.value().to_vec() }),
        },
        subject_public_key: info.subject_public_key.raw_bytes().to_vec(),
    })
}

/// `pkcs1::RsaPublicKey::from_der`. The result is trusted to be a function of
/// the bytes alone; nothing more is claimed of it. Modulus and exponent are
/// copied out as the big-endian bytes that the crate hands out.
#[verifier::external_body]
pub(crate) fn decode_rsa_public_key(der: &[u8]) -> (r: Result<RsaPublicKey, spki::der::Error>)
    ensures
        r is Ok <==> rsa_public_key_decoding(der@) is Some,
        r matches Ok(key) ==> rsa_public_key_decoding(der@) == Some(key@),
{
    let key = pkcs1::RsaPublicKey::from_der(der)?;
    Ok(RsaPublicKey { e: key.public_exponent.as_bytes().to_vec(), n: key.modulus.as_bytes().to_vec() })
}

/// The constant `pkcs1::ALGORITHM_ID`, copied out field by field. Claimed of
/// it: it holds the object identifier `rsaEncryption` and the parameters NULL.
#[verifier::external_body]
pub(crate) fn rsa_algorithm_identifier() -> (id: AlgorithmIdentifier)
    ensures
        id@ == rsa_encryption(),
{
    AlgorithmIdentifier {
        oid: pkcs1::ALGORITHM_ID.oid.as_bytes().to_vec(),
        parameters: pkcs1::ALGORITHM_ID.parameters.map(|p| Any { tag: p.tag().octet(), value: p.value().to_vec() }),
    }
}

/// Whether two byte strings hold the same bytes.
pub fn same_bytes(a: &[u8], b: &[u8]) -> (same: bool)
    ensures
        same == (a@ == b@),
{
    if a.len() != b.len() {
        return false;
    }
    let mut i: usize = 0;
    while i < a.len()
        invariant
            a@.len() == b@.len(),
            i <= a@.len(),
            a@.subrange(0, i as int) == b@.subrange(0, i as int),
        decreases a@.len() - i,
    {
        if a[i] != b[i] {
            assert(a@[i as int] != b@[i as int]);
            return false;
        }
        assert(a@.subrange(0, i + 1) =~= a@.subrange(0, i as int).push(a@[i as int]));
        assert(b@.subrange(0, i + 1) =~= b@.subrange(0, i as int).push(b@[i as int]));
        i += 1;
    }
    assert(a@ =~= a@.subrange(0, i as int));
    assert(b@ =~= b@.subrange(0, i as int));
    true
}

impl Any {
    /// Whether two values have the same tag and the same bytes.
    pub fn same(&self, other: &Any) -> (same: bool)
        ensures
            same == (self@ == other@),
    {
        self.tag == other.tag && same_bytes(self.value.as_slice(), other.value.as_slice())
    }
}

impl AlgorithmIdentifier {
    /// Whether two identifiers name the same algorithm with the same
    /// parameters.
    pub fn same(&self, other: &AlgorithmIdentifier) -> (same: bool)
        ensures
            same == (self@ == other@),
    {
        if !same_bytes(self.oid.as_slice(), other.oid.as_slice()) {
            return false;
        }
        match (&self.parameters, &other.parameters) {
            (None, None) => true,
            (Some(p), Some(q)) => p.same(q),
            _ => false,
        }
    }
}

} // verus!

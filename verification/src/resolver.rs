//! Resolving the CA key: from the remote service's response to a public key
//! request to the key that certificates are signed under.

use crate::asn1::{
    decode_rsa_public_key, decode_spki, rsa_algorithm_identifier, rsa_encryption,
    rsa_public_key_decoding, spki_decoding, AlgorithmIdentifier, AlgorithmIdentifierView,
    SubjectPublicKeyInfo, SubjectPublicKeyInfoView,
};
use crate::error::{MissingField, RemoteKeyError, ServiceError};
use crate::key::{
    is_public_key_line, spec_ca_key, CaKey, CaKeyView, KeyAlgorithm, PublicKey, PublicKeyView,
    SigningAlgorithm,
};
use crate::service::{KeyService, PublicKeyResponse, PublicKeyResponseView};
use vstd::prelude::*;

verus! {

/// The supported algorithm that an identifier names, if it names one.
pub open spec fn spec_select_algorithm(id: AlgorithmIdentifierView) -> Option<KeyAlgorithm> {
    if id == rsa_encryption() {
        Some(KeyAlgorithm::Rsa)
    } else {
        None
    }
}

/// The key material that the bytes of a key of algorithm `algorithm` decode
/// to, if they are well-formed.
pub open spec fn spec_decode_key(algorithm: KeyAlgorithm, bytes: Seq<u8>) -> Option<PublicKeyView> {
    match algorithm {
        KeyAlgorithm::Rsa => match rsa_public_key_decoding(bytes) {
            Some(key) => Some(PublicKeyView::Rsa(key)),
            None => None,
        },
    }
}

/// The CA key that a decoded `SubjectPublicKeyInfo` gives under the handle
/// `key_id`.
pub open spec fn spec_ca_key_from_spki(key_id: Seq<char>, info: SubjectPublicKeyInfoView) -> Result<
    CaKeyView,
    RemoteKeyError,
> {
    match spec_select_algorithm(info.algorithm) {
        None => Err(RemoteKeyError::UnsupportedAlgorithm),
        Some(algorithm) => match spec_decode_key(algorithm, info.subject_public_key) {
            None => Err(RemoteKeyError::Encoding),
            Some(key) => Ok(spec_ca_key(key_id, key)),
        },
    }
}

/// The CA key that a response to a public key request gives: the first of
/// these that applies decides.
///
/// - no key identifier: the field is missing;
/// - no key material: the field is missing;
/// - key material that is no `SubjectPublicKeyInfo`: an encoding error;
/// - an algorithm that is not supported: unsupported;
/// - a key that is malformed for its algorithm: an encoding error;
/// - else the key, under the identifier that the response gave.
pub open spec fn spec_ca_key_from_response(response: PublicKeyResponseView) -> Result<
    CaKeyView,
    RemoteKeyError,
> {
    match (response.key_id, response.public_key) {
        (None, _) => Err(RemoteKeyError::MissingField(MissingField::KeyId)),
        (Some(_), None) => Err(RemoteKeyError::MissingField(MissingField::PublicKey)),
        (Some(id), Some(der)) => match spki_decoding(der) {
            None => Err(RemoteKeyError::Encoding),
            Some(info) => spec_ca_key_from_spki(id, info),
        },
    }
}

/// Whether a result of resolving is the one that `expected` describes: the
/// same error, or a key with the same contents.
pub open spec fn resolves_to(
    r: Result<CaKey, RemoteKeyError>,
    expected: Result<CaKeyView, RemoteKeyError>,
) -> bool {
    match (r, expected) {
        (Ok(key), Ok(view)) => key@ == view,
        (Err(e), Err(f)) => e == f,
        _ => false,
    }
}

/// Key material that decodes for an algorithm is of that algorithm, whichever
/// of the supported ones it is.
pub proof fn lemma_decoded_key_algorithm(algorithm: KeyAlgorithm, bytes: Seq<u8>)
    requires
        spec_decode_key(algorithm, bytes) is Some,
    ensures
        spec_decode_key(algorithm, bytes)->0.algorithm() == algorithm,
{
}

/// Whether a response holds a key identifier and, as key material, a
/// well-formed `SubjectPublicKeyInfo` of an RSA key: the algorithm
/// `rsaEncryption` with parameters NULL, around a PKCS#1 `RSAPublicKey`.
pub open spec fn is_rsa_response(response: PublicKeyResponseView) -> bool {
    &&& response.key_id is Some
    &&& response.public_key is Some
    &&& spki_decoding(response.public_key->0) is Some
    &&& spki_decoding(response.public_key->0)->0.algorithm == rsa_encryption()
    &&& rsa_public_key_decoding(spki_decoding(response.public_key->0)->0.subject_public_key) is Some
}

/// A response gives a key exactly when it holds a key identifier and a
/// well-formed RSA key. The key is then an RSA key with the modulus and the
/// exponent of the key material, it signs with RSASSA-PKCS1-v1_5 and SHA-512,
/// its SSH key type is "ssh-rsa", and its handle is the response's key
/// identifier.
pub proof fn lemma_key_iff_rsa_response(response: PublicKeyResponseView)
    ensures
        spec_ca_key_from_response(response) is Ok <==> is_rsa_response(response),
        spec_ca_key_from_response(response) matches Ok(key) ==> {
            &&& key.key_id == response.key_id->0
            &&& key.public_key == PublicKeyView::Rsa(
                rsa_public_key_decoding(
                    spki_decoding(response.public_key->0)->0.subject_public_key,
                )->0,
            )
            &&& key.signing_algorithm == SigningAlgorithm::RsassaPkcs1V15Sha512
            &&& key.key_type() == "ssh-rsa"@
        },
{
}

/// A key that a response resolves to is of the algorithm that the response
/// names and signs with the signing algorithm of that algorithm. As an SSH
/// public key it has the key type of that algorithm, and the response's key
/// identifier as its comment.
pub proof fn lemma_resolved_key(response: PublicKeyResponseView, key: CaKeyView)
    requires
        key.wf(),
        spec_ca_key_from_response(response) == Ok::<CaKeyView, RemoteKeyError>(key),
    ensures
        response.key_id == Some(key.key_id),
        response.public_key is Some,
        spki_decoding(response.public_key->0) is Some,
        spec_select_algorithm(spki_decoding(response.public_key->0)->0.algorithm) == Some(
            key.public_key.algorithm(),
        ),
        key.signing_algorithm == key.public_key.algorithm().spec_signing_algorithm(),
        is_public_key_line(
            key.openssh,
            key.public_key.algorithm().spec_key_type(),
            response.key_id->0,
        ),
{
    let info = spki_decoding(response.public_key->0)->0;
    let algorithm = spec_select_algorithm(info.algorithm)->0;
    lemma_decoded_key_algorithm(algorithm, info.subject_public_key);
}

/// A response that lacks a field resolves to no key, whatever else it holds.
pub proof fn lemma_missing_field(response: PublicKeyResponseView)
    requires
        response.key_id is None || response.public_key is None,
    ensures
        spec_ca_key_from_response(response) matches Err(e) && e is MissingField,
{
}

/// Picks the supported algorithm that an identifier names. Object identifier
/// and parameters must both be the algorithm's own.
pub fn select_algorithm(id: &AlgorithmIdentifier) -> (r: Result<KeyAlgorithm, RemoteKeyError>)
    ensures
        match spec_select_algorithm(id@) {
            Some(algorithm) => r == Ok::<KeyAlgorithm, RemoteKeyError>(algorithm),
            None => r == Err::<KeyAlgorithm, RemoteKeyError>(RemoteKeyError::UnsupportedAlgorithm),
        },
{
    let rsa = rsa_algorithm_identifier();
    if id.same(&rsa) {
        Ok(KeyAlgorithm::Rsa)
    } else {
        Err(RemoteKeyError::UnsupportedAlgorithm)
    }
}

/// Decodes the bytes of a key of the given algorithm.
pub fn decode_key(algorithm: KeyAlgorithm, bytes: &[u8]) -> (r: Result<PublicKey, RemoteKeyError>)
    ensures
        match spec_decode_key(algorithm, bytes@) {
            Some(key) => r matches Ok(k) && k@ == key,
            None => r == Err::<PublicKey, RemoteKeyError>(RemoteKeyError::Encoding),
        },
        r matches Ok(k) ==> k@.algorithm() == algorithm,
{
    match algorithm {
        KeyAlgorithm::Rsa => match decode_rsa_public_key(bytes) {
            Ok(key) => Ok(PublicKey::Rsa(key)),
            Err(_) => Err(RemoteKeyError::Encoding),
        },
    }
}

/// Makes the CA key out of a decoded `SubjectPublicKeyInfo`.
pub fn ca_key_from_spki(key_id: String, info: &SubjectPublicKeyInfo) -> (r: Result<
    CaKey,
    RemoteKeyError,
>)
    ensures
        resolves_to(r, spec_ca_key_from_spki(key_id@, info@)),
        r matches Ok(key) ==> {
            &&& key@.wf()
            &&& key@.key_id == key_id@
            &&& spec_select_algorithm(info@.algorithm) == Some(key@.public_key.algorithm())
        },
{
    let algorithm = match select_algorithm(&info.algorithm) {
        Ok(algorithm) => algorithm,
        Err(e) => {
            return Err(e);
        },
    };
    match decode_key(algorithm, info.subject_public_key.as_slice()) {
        Ok(key) => Ok(CaKey::new(key_id, key)),
        Err(e) => Err(e),
    }
}

/// Makes the CA key out of the response to a public key request. No key comes
/// out of a response that lacks a field or holds a key that cannot be used.
pub fn ca_key_from_response(response: PublicKeyResponse) -> (r: Result<CaKey, RemoteKeyError>)
    ensures
        resolves_to(r, spec_ca_key_from_response(response@)),
        r is Ok <==> is_rsa_response(response@),
        r matches Ok(key) ==> {
            &&& key@.wf()
            &&& response@.key_id == Some(key@.comment())
            &&& key@.key_type() == "ssh-rsa"@
            &&& key@.signing_algorithm == SigningAlgorithm::RsassaPkcs1V15Sha512
            &&& response@.public_key is Some
            &&& spki_decoding(response@.public_key->0) is Some
            &&& spec_select_algorithm(spki_decoding(response@.public_key->0)->0.algorithm) == Some(
                key@.public_key.algorithm(),
            )
        },
{
    proof {
        lemma_key_iff_rsa_response(response@);
    }
    let key_id = match response.key_id {
        Some(key_id) => key_id,
        None => {
            return Err(RemoteKeyError::MissingField(MissingField::KeyId));
        },
    };
    let der = match response.public_key {
        Some(der) => der,
        None => {
            return Err(RemoteKeyError::MissingField(MissingField::PublicKey));
        },
    };
    match decode_spki(der.as_slice()) {
        Ok(info) => ca_key_from_spki(key_id, &info),
        Err(_) => Err(RemoteKeyError::Encoding),
    }
}

/// What a reply to a public key request resolves to: the failure of the
/// request, or what its response gives.
pub fn ca_key_from_reply(reply: Result<PublicKeyResponse, ServiceError>) -> (r: Result<
    CaKey,
    RemoteKeyError,
>)
    ensures
        match reply {
            Err(e) => r == Err::<CaKey, RemoteKeyError>(RemoteKeyError::Service(e)),
            Ok(response) => resolves_to(r, spec_ca_key_from_response(response@)),
        },
        r is Ok <==> (reply matches Ok(response) && is_rsa_response(response@)),
        r matches Ok(key) ==> {
            &&& key@.wf()
            &&& reply matches Ok(response)
            &&& response@.key_id == Some(key@.comment())
            &&& key@.key_type() == "ssh-rsa"@
            &&& key@.signing_algorithm == SigningAlgorithm::RsassaPkcs1V15Sha512
        },
{
    match reply {
        Ok(response) => ca_key_from_response(response),
        Err(e) => Err(RemoteKeyError::Service(e)),
    }
}

/// Resolves the CA key known to the service as `key_id`: asks the service
/// for it, once, and makes the key out of the reply.
///
/// The key that comes out carries the identifier that the service answered
/// with, which is the handle to sign under.
pub fn resolve<S: KeyService>(service: &S, key_id: &str) -> (r: Result<CaKey, RemoteKeyError>)
    ensures
        r matches Ok(key) ==> key@.wf() && exists|response: PublicKeyResponseView|
            #[trigger] spec_ca_key_from_response(response) == Ok::<CaKeyView, RemoteKeyError>(key@),
        r matches Ok(key) ==> key@.key_type() == "ssh-rsa"@ && key@.signing_algorithm
            == SigningAlgorithm::RsassaPkcs1V15Sha512,
        r matches Err(e) ==> e is Service || exists|response: PublicKeyResponseView|
            #[trigger] spec_ca_key_from_response(response) == Err::<CaKeyView, RemoteKeyError>(e),
{
    let reply = service.get_public_key(key_id);
    let ghost seen = reply;
    let r = ca_key_from_reply(reply);
    proof {
        if let Ok(response) = seen {
            assert(resolves_to(r, spec_ca_key_from_response(response@)));
        }
    }
    r
}

} // verus!

//! The remote key-management service, as far as the certificate pipeline
//! uses it: two operations, each a request answered by a response or a
//! failure.

use crate::error::ServiceError;
use crate::key::SigningAlgorithm;
use vstd::prelude::*;

verus! {

/// The response to a request for a public key. The service may leave either
/// field out.
#[derive(Clone, Debug, PartialEq, Eq)]
pub struct PublicKeyResponse {
    /// The identifier under which the service knows the key.
    pub key_id: Option<String>,
    /// The key as a DER-encoded `SubjectPublicKeyInfo`.
    pub public_key: Option<Vec<u8>>,
}

pub struct PublicKeyResponseView {
    pub key_id: Option<Seq<char>>,
    pub public_key: Option<Seq<u8>>,
}

impl View for PublicKeyResponse {
    type V = PublicKeyResponseView;

    open spec fn view(&self) -> PublicKeyResponseView {
        PublicKeyResponseView {
            key_id: match self.key_id {
                Some(id) => Some(id@),
                None => None,
            },
            public_key: match self.public_key {
                Some(der) => Some(der@),
                None => None,
            },
        }
    }
}

/// A request to sign a message.
#[derive(Clone, Debug, PartialEq, Eq)]
pub struct SignRequest {
    pub key_id: String,
    pub message: Vec<u8>,
    pub signing_algorithm: SigningAlgorithm,
}

pub struct SignRequestView {
    pub key_id: Seq<char>,
    pub message: Seq<u8>,
    pub signing_algorithm: SigningAlgorithm,
}

impl View for SignRequest {
    type V = SignRequestView;

    open spec fn view(&self) -> SignRequestView {
        SignRequestView {
            key_id: self.key_id@,
            message: self.message@,
            signing_algorithm: self.signing_algorithm,
        }
    }
}

/// The response to a request to sign. The service may leave the signature
/// out.
#[derive(Clone, Debug, PartialEq, Eq)]
pub struct SignResponse {
    pub signature: Option<Vec<u8>>,
}

pub struct SignResponseView {
    pub signature: Option<Seq<u8>>,
}

impl View for SignResponse {
    type V = SignResponseView;

    open spec fn view(&self) -> SignResponseView {
        SignResponseView {
            signature: match self.signature {
                Some(s) => Some(s@),
                None => None,
            },
        }
    }
}

/// A handle on the remote service. One handle serves the whole run; the
/// pipeline makes one call at a time through it and waits for the answer.
///
/// Nothing is assumed of an implementation: whatever a call returns, the
/// pipeline deals with it.
pub trait KeyService {
    /// Asks for the public key known as `key_id`.
    fn get_public_key(&self, key_id: &str) -> Result<PublicKeyResponse, ServiceError>;

    /// Asks for a signature.
    fn sign(&self, request: &SignRequest) -> Result<SignResponse, ServiceError>;
}

} // verus!

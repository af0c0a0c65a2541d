//! Signing through the remote service: one request per message, and the raw
//! signature that comes back put into an SSH signature envelope.

use crate::envelope::{encode, spec_decode, spec_encode};
use crate::error::{ServiceError, SigningFailure};
use crate::key::{CaKey, SigningAlgorithm};
use crate::service::{KeyService, SignRequest, SignRequestView, SignResponse, SignResponseView};
use vstd::prelude::*;
use vstd::slice::slice_to_vec;
use vstd::utf8::encode_utf8;

verus! {

/// The SSH names of the signing algorithms are short: their UTF-8 encoding
/// has as many bytes as the name has characters.
pub proof fn lemma_ssh_name_len(algorithm: SigningAlgorithm)
    ensures
        encode_utf8(algorithm.spec_ssh_name()).len() == algorithm.spec_ssh_name().len(),
        algorithm.spec_ssh_name().len() == 12,
{
    reveal_strlit("rsa-sha2-512");
    let name = algorithm.spec_ssh_name();
    assert(vstd::utf8::is_ascii_chars(name));
    vstd::utf8::is_ascii_chars_encode_utf8(name);
}

/// The request that asks the service to sign `message` under the key `key`.
pub open spec fn spec_sign_request(key: crate::key::CaKeyView, message: Seq<u8>) -> SignRequestView {
    SignRequestView { key_id: key.key_id, message, signing_algorithm: key.signing_algorithm }
}

/// What a reply to a sign request gives: the envelope of the signature, made
/// with the SSH name of `algorithm`, or a failure where the call failed, the
/// response holds no signature, or the signature is too long for an
/// envelope.
pub open spec fn spec_envelope_from_reply(
    algorithm: SigningAlgorithm,
    reply: Result<SignResponseView, ServiceError>,
) -> Result<Seq<u8>, SigningFailure> {
    match reply {
        Err(_) => Err(SigningFailure),
        Ok(response) => match response.signature {
            None => Err(SigningFailure),
            Some(signature) => if signature.len() <= u32::MAX {
                Ok(spec_encode(algorithm.spec_ssh_name(), signature))
            } else {
                Err(SigningFailure)
            },
        },
    }
}

/// The view of a reply to a sign request.
pub open spec fn reply_view(reply: Result<SignResponse, ServiceError>) -> Result<
    SignResponseView,
    ServiceError,
> {
    match reply {
        Ok(response) => Ok(response@),
        Err(e) => Err(e),
    }
}

/// The view of an outcome of signing.
pub open spec fn signed_view(signed: Result<Vec<u8>, SigningFailure>) -> Result<
    Seq<u8>,
    SigningFailure,
> {
    match signed {
        Ok(envelope) => Ok(envelope@),
        Err(failure) => Err(failure),
    }
}

/// Whether `bytes` is the envelope of some signature made with `algorithm`.
pub open spec fn is_envelope_of(bytes: Seq<u8>, algorithm: SigningAlgorithm) -> bool {
    spec_decode(bytes) matches Some((name, _)) && name == algorithm.spec_ssh_name()
}

/// Makes the request that asks the service to sign `message` under `key`.
pub fn sign_request(key: &CaKey, message: &[u8]) -> (request: SignRequest)
    ensures
        request@ == spec_sign_request(key@, message@),
{
    SignRequest {
        key_id: key.key_id().to_owned(),
        message: slice_to_vec(message),
        signing_algorithm: key.signing_algorithm(),
    }
}

/// Turns the reply to a sign request into a signature envelope. Every way in
/// which the service can fail to sign ends in the one failure.
pub fn envelope_from_reply(algorithm: SigningAlgorithm, reply: Result<SignResponse, ServiceError>) -> (r:
    Result<Vec<u8>, SigningFailure>)
    ensures
        match spec_envelope_from_reply(algorithm, reply_view(reply)) {
            Ok(envelope) => r matches Ok(out) && out@ == envelope && is_envelope_of(
                out@,
                algorithm,
            ),
            Err(e) => r == Err::<Vec<u8>, SigningFailure>(e),
        },
{
    let response = match reply {
        Ok(response) => response,
        Err(_) => {
            return Err(SigningFailure);
        },
    };
    let signature = match response.signature {
        Some(signature) => signature,
        None => {
            return Err(SigningFailure);
        },
    };
    if signature.len() > 0xffff_ffff {
        return Err(SigningFailure);
    }
    proof {
        lemma_ssh_name_len(algorithm);
    }
    Ok(encode(algorithm.ssh_name(), signature.as_slice()))
}

/// Signs with the CA key, by asking the remote service.
pub struct RemoteSigner<'a, S: KeyService> {
    service: &'a S,
    key: &'a CaKey,
}

impl<'a, S: KeyService> RemoteSigner<'a, S> {
    /// The CA key that this signer signs under.
    pub closed spec fn spec_key(&self) -> CaKey {
        *self.key
    }

    /// A signer that asks `service` to sign under `key`.
    pub fn new(service: &'a S, key: &'a CaKey) -> (signer: Self)
        ensures
            signer.spec_key() == *key,
    {
        RemoteSigner { service, key }
    }

    /// The CA key that this signer signs under.
    pub fn key(&self) -> (key: &'a CaKey)
        ensures
            *key == self.spec_key(),
    {
        self.key
    }

    /// Signs `data`: sends the service one request, and puts the signature
    /// that comes back into an envelope. There is no second try.
    pub fn sign(&self, data: &[u8]) -> (r: Result<Vec<u8>, SigningFailure>)
        ensures
            r matches Ok(envelope) ==> is_envelope_of(envelope@, self.spec_key()@.signing_algorithm),
            exists|reply: Result<SignResponseView, ServiceError>|
                #[trigger] spec_envelope_from_reply(self.spec_key()@.signing_algorithm, reply)
                    == signed_view(r),
    {
        let request = sign_request(self.key, data);
        let reply = self.service.sign(&request);
        let ghost seen = reply_view(reply);
        let r = envelope_from_reply(self.key.signing_algorithm(), reply);
        assert(spec_envelope_from_reply(self.spec_key()@.signing_algorithm, seen) == signed_view(r));
        r
    }
}

} // verus!

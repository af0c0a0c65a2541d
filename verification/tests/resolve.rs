use std::cell::Cell;

use sshca::asn1::{AlgorithmIdentifier, Any};
use sshca::error::{CertError, ErrorKind, MissingField, RemoteKeyError, ServiceError, SigningFailure};
use sshca::key::{CaKey, KeyAlgorithm, PublicKey, RsaPublicKey, SigningAlgorithm};
use sshca::resolver::{ca_key_from_reply, ca_key_from_response, decode_key, resolve, select_algorithm};
use sshca::service::{KeyService, PublicKeyResponse, SignRequest, SignResponse};
use sshca::signer::RemoteSigner;

fn unhex(lines: &[&str]) -> Vec<u8> {
    let text = lines.concat();
    let digits: Vec<u8> = text.chars().map(|c| c.to_digit(16).unwrap() as u8).collect();
    digits.chunks(2).map(|pair| pair[0] * 16 + pair[1]).collect()
}

fn ca_spki_der() -> Vec<u8> {
    unhex(&[
        "30820122300d06092a864886f70d01010105000382010f003082010a02820101",
        "00c8a78500a5a250db8ed36c85b8dcf83c4be1953114faaac7616e0ea24922fa",
        "6b7ab01f85582c815cc3bdeb5ed46762bc536accaa8b72705b00cef316b2ec50",
        "8fb9697241b9e34238419cccf7339eeb8b062147af4f5932f613d9bc0ae70bf6",
        "d56d4432e83e13767587531bfa9dd56531741244be75e8bc9226b9fa44b4b8a1",
        "01358d7e8bb75d0c724a4f11ece77776263faefe79612eb1d71646e77e898286",
        "6be1400eafc3580d3139b41aaa7380187372f22e35bd55b288496165c881ed15",
        "4d5811245c52d56cc09d4916d4f2a50bcf5ae0a2637f4cfa6bf9daafc113dba8",
        "383b6dd7da6dd8db22d8510a8d3115983308909a1a0332517aa55e896e154249",
        "b30203010001",
    ])
}

fn ca_spki_without_parameters() -> Vec<u8> {
    unhex(&[
        "30820120300b06092a864886f70d0101010382010f003082010a0282010100c8",
        "a78500a5a250db8ed36c85b8dcf83c4be1953114faaac7616e0ea24922fa6b7a",
        "b01f85582c815cc3bdeb5ed46762bc536accaa8b72705b00cef316b2ec508fb9",
        "697241b9e34238419cccf7339eeb8b062147af4f5932f613d9bc0ae70bf6d56d",
        "4432e83e13767587531bfa9dd56531741244be75e8bc9226b9fa44b4b8a10135",
        "8d7e8bb75d0c724a4f11ece77776263faefe79612eb1d71646e77e8982866be1",
        "400eafc3580d3139b41aaa7380187372f22e35bd55b288496165c881ed154d58",
        "11245c52d56cc09d4916d4f2a50bcf5ae0a2637f4cfa6bf9daafc113dba8383b",
        "6dd7da6dd8db22d8510a8d3115983308909a1a0332517aa55e896e154249b302",
        "03010001",
    ])
}

fn ca_spki_with_malformed_key() -> Vec<u8> {
    unhex(&[
        "3015300d06092a864886f70d0101010500030400010203",
    ])
}

fn ec_spki_der() -> Vec<u8> {
    unhex(&[
        "3059301306072a8648ce3d020106082a8648ce3d03010703420004fc116698a3",
        "e3236550c4c9efa9bd4d0619602a65d2930e9150ab33e84dbc83f8a6a6b9933f",
        "35ab59245e5b5a7af5dca76b33cbe7aeee5981b3ca350bebf52ecd",
    ])
}

fn ca_modulus() -> Vec<u8> {
    unhex(&[
        "c8a78500a5a250db8ed36c85b8dcf83c4be1953114faaac7616e0ea24922fa6b",
        "7ab01f85582c815cc3bdeb5ed46762bc536accaa8b72705b00cef316b2ec508f",
        "b9697241b9e34238419cccf7339eeb8b062147af4f5932f613d9bc0ae70bf6d5",
        "6d4432e83e13767587531bfa9dd56531741244be75e8bc9226b9fa44b4b8a101",
        "358d7e8bb75d0c724a4f11ece77776263faefe79612eb1d71646e77e8982866b",
        "e1400eafc3580d3139b41aaa7380187372f22e35bd55b288496165c881ed154d",
        "5811245c52d56cc09d4916d4f2a50bcf5ae0a2637f4cfa6bf9daafc113dba838",
        "3b6dd7da6dd8db22d8510a8d3115983308909a1a0332517aa55e896e154249b3",
    ])
}

fn ca_exponent() -> Vec<u8> {
    unhex(&[
        "010001",
    ])
}

fn ca_key_base64() -> String {
    [
        "AAAAB3NzaC1yc2EAAAADAQABAAABAQDIp4UApaJQ247TbIW43Pg8S+GVMRT6qsdh",
        "bg6iSSL6a3qwH4VYLIFcw73rXtRnYrxTasyqi3JwWwDO8xay7FCPuWlyQbnjQjhB",
        "nMz3M57riwYhR69PWTL2E9m8CucL9tVtRDLoPhN2dYdTG/qd1WUxdBJEvnXovJIm",
        "ufpEtLihATWNfou3XQxySk8R7Od3diY/rv55YS6x1xZG536JgoZr4UAOr8NYDTE5",
        "tBqqc4AYc3LyLjW9VbKISWFlyIHtFU1YESRcUtVswJ1JFtTypQvPWuCiY39M+mv5",
        "2q/BE9uoODtt19pt2Nsi2FEKjTEVmDMIkJoaAzJReqVeiW4VQkmz",
    ]
    .concat()
}

/// A service that answers every public key request with the same reply, and
/// counts the calls made to it.
struct FixedService {
    reply: Result<PublicKeyResponse, ServiceError>,
    get_calls: Cell<u32>,
    sign_calls: Cell<u32>,
}

impl FixedService {
    fn new(reply: Result<PublicKeyResponse, ServiceError>) -> FixedService {
        FixedService { reply, get_calls: Cell::new(0), sign_calls: Cell::new(0) }
    }
}

impl KeyService for FixedService {
    fn get_public_key(&self, _key_id: &str) -> Result<PublicKeyResponse, ServiceError> {
        self.get_calls.set(self.get_calls.get() + 1);
        self.reply.clone()
    }

    fn sign(&self, _request: &SignRequest) -> Result<SignResponse, ServiceError> {
        self.sign_calls.set(self.sign_calls.get() + 1);
        Ok(SignResponse { signature: Some(vec![1, 2, 3]) })
    }
}

fn response(key_id: Option<&str>, public_key: Option<Vec<u8>>) -> PublicKeyResponse {
    PublicKeyResponse { key_id: key_id.map(String::from), public_key }
}

fn rsa_identifier() -> AlgorithmIdentifier {
    AlgorithmIdentifier {
        oid: vec![0x2a, 0x86, 0x48, 0x86, 0xf7, 0x0d, 0x01, 0x01, 0x01],
        parameters: Some(Any { tag: 5, value: vec![] }),
    }
}

#[test]
fn response_with_rsa_key_gives_ssh_rsa_key() {
    let key = ca_key_from_response(response(Some("ca-1"), Some(ca_spki_der()))).unwrap();
    assert_eq!(key.key_type(), "ssh-rsa");
    assert_eq!(key.key_id(), "ca-1");
    assert_eq!(
        key.public_key(),
        &PublicKey::Rsa(RsaPublicKey { e: vec![1, 0, 1], n: ca_modulus() })
    );
    assert_eq!(key.public_key().algorithm(), KeyAlgorithm::Rsa);
    assert_eq!(key.signing_algorithm(), SigningAlgorithm::RsassaPkcs1V15Sha512);
}

#[test]
fn exponent_of_the_test_key_is_65537() {
    assert_eq!(ca_exponent(), vec![1, 0, 1]);
    assert_eq!(ca_modulus().len(), 256);
}

#[test]
fn key_carries_the_identifier_that_the_service_answered_with() {
    let service = FixedService::new(Ok(response(Some("resolved-id"), Some(ca_spki_der()))));
    let key = resolve(&service, "alias/asked-for").unwrap();
    assert_eq!(key.key_id(), "resolved-id");
    assert_eq!(service.get_calls.get(), 1);
    assert_eq!(service.sign_calls.get(), 0);
}

#[test]
fn openssh_line_of_the_key() {
    let key = ca_key_from_response(response(Some("ca-1"), Some(ca_spki_der()))).unwrap();
    assert_eq!(key.openssh(), format!("ssh-rsa {} ca-1", ca_key_base64()));
}

#[test]
fn trust_line_for_alice() {
    let key = ca_key_from_response(response(Some("ca-1"), Some(ca_spki_der()))).unwrap();
    assert_eq!(
        key.trust_line("alice"),
        format!("cert-authority,principals=\"alice\" ssh-rsa {} ca-1", ca_key_base64())
    );
}

#[test]
fn key_made_by_hand_equals_the_resolved_one() {
    let resolved = ca_key_from_response(response(Some("ca-1"), Some(ca_spki_der()))).unwrap();
    let made = CaKey::new(
        "ca-1".to_string(),
        PublicKey::Rsa(RsaPublicKey { e: ca_exponent(), n: ca_modulus() }),
    );
    assert_eq!(made, resolved);
    assert_eq!(made.clone(), resolved);
}

#[test]
fn response_without_key_id_is_refused() {
    let r = ca_key_from_response(response(None, Some(ca_spki_der())));
    assert_eq!(r, Err(RemoteKeyError::MissingField(MissingField::KeyId)));
}

#[test]
fn response_without_public_key_is_refused() {
    let r = ca_key_from_response(response(Some("ca-1"), None));
    assert_eq!(r, Err(RemoteKeyError::MissingField(MissingField::PublicKey)));
}

#[test]
fn empty_response_misses_the_key_id_first() {
    let r = ca_key_from_response(response(None, None));
    assert_eq!(r, Err(RemoteKeyError::MissingField(MissingField::KeyId)));
}

#[test]
fn malformed_der_is_an_encoding_error() {
    let r = ca_key_from_response(response(Some("ca-1"), Some(vec![0x30, 0x03, 0x01])));
    assert_eq!(r, Err(RemoteKeyError::Encoding));
    let r = ca_key_from_response(response(Some("ca-1"), Some(vec![])));
    assert_eq!(r, Err(RemoteKeyError::Encoding));
}

#[test]
fn trailing_bytes_are_an_encoding_error() {
    let mut der = ca_spki_der();
    der.push(0);
    let r = ca_key_from_response(response(Some("ca-1"), Some(der)));
    assert_eq!(r, Err(RemoteKeyError::Encoding));
}

#[test]
fn elliptic_curve_key_is_unsupported() {
    let r = ca_key_from_response(response(Some("ca-1"), Some(ec_spki_der())));
    assert_eq!(r, Err(RemoteKeyError::UnsupportedAlgorithm));
}

#[test]
fn rsa_identifier_without_parameters_is_unsupported() {
    let r = ca_key_from_response(response(Some("ca-1"), Some(ca_spki_without_parameters())));
    assert_eq!(r, Err(RemoteKeyError::UnsupportedAlgorithm));
}

#[test]
fn malformed_rsa_key_is_an_encoding_error() {
    let r = ca_key_from_response(response(Some("ca-1"), Some(ca_spki_with_malformed_key())));
    assert_eq!(r, Err(RemoteKeyError::Encoding));
}

#[test]
fn select_algorithm_knows_rsa() {
    assert_eq!(select_algorithm(&rsa_identifier()), Ok(KeyAlgorithm::Rsa));
}

#[test]
fn select_algorithm_compares_object_identifier_and_parameters() {
    let mut other_oid = rsa_identifier();
    other_oid.oid[8] = 0x0b;
    assert_eq!(select_algorithm(&other_oid), Err(RemoteKeyError::UnsupportedAlgorithm));

    let mut shorter = rsa_identifier();
    shorter.oid.pop();
    assert_eq!(select_algorithm(&shorter), Err(RemoteKeyError::UnsupportedAlgorithm));

    let mut no_parameters = rsa_identifier();
    no_parameters.parameters = None;
    assert_eq!(select_algorithm(&no_parameters), Err(RemoteKeyError::UnsupportedAlgorithm));

    let mut other_tag = rsa_identifier();
    other_tag.parameters = Some(Any { tag: 4, value: vec![] });
    assert_eq!(select_algorithm(&other_tag), Err(RemoteKeyError::UnsupportedAlgorithm));

    let mut other_value = rsa_identifier();
    other_value.parameters = Some(Any { tag: 5, value: vec![0] });
    assert_eq!(select_algorithm(&other_value), Err(RemoteKeyError::UnsupportedAlgorithm));
}

#[test]
fn identifiers_compare_by_content() {
    assert!(rsa_identifier().same(&rsa_identifier()));
    let mut other = rsa_identifier();
    other.oid[0] = 0x2b;
    assert!(!rsa_identifier().same(&other));
    assert!(Any { tag: 5, value: vec![1, 2] }.same(&Any { tag: 5, value: vec![1, 2] }));
    assert!(!Any { tag: 5, value: vec![1, 2] }.same(&Any { tag: 5, value: vec![1, 3] }));
}

#[test]
fn decode_key_reads_modulus_and_exponent() {
    // RSAPublicKey { n = 0x00c5 (as 00 c5), e = 3 }
    let der = vec![0x30, 0x07, 0x02, 0x02, 0x00, 0xc5, 0x02, 0x01, 0x03];
    assert_eq!(
        decode_key(KeyAlgorithm::Rsa, &der),
        Ok(PublicKey::Rsa(RsaPublicKey { e: vec![3], n: vec![0xc5] }))
    );
    assert_eq!(decode_key(KeyAlgorithm::Rsa, &[1, 2, 3]), Err(RemoteKeyError::Encoding));
}

#[test]
fn failed_request_is_a_service_error() {
    let failure = ServiceError { message: "connection refused".to_string() };
    let service = FixedService::new(Err(failure.clone()));
    assert_eq!(resolve(&service, "ca-1"), Err(RemoteKeyError::Service(failure.clone())));
    assert_eq!(ca_key_from_reply(Err(failure.clone())), Err(RemoteKeyError::Service(failure)));
}

#[test]
fn reply_with_response_resolves_as_the_response_does() {
    let key = ca_key_from_reply(Ok(response(Some("ca-1"), Some(ca_spki_der())))).unwrap();
    assert_eq!(key.key_id(), "ca-1");
    let r = ca_key_from_reply(Ok(response(Some("ca-1"), None)));
    assert_eq!(r, Err(RemoteKeyError::MissingField(MissingField::PublicKey)));
}

#[test]
fn missing_key_id_fails_before_any_sign_call() {
    let service = FixedService::new(Ok(response(None, Some(ca_spki_der()))));
    let r = resolve(&service, "ca-1");
    let error = r.unwrap_err();
    assert_eq!(error, RemoteKeyError::MissingField(MissingField::KeyId));
    assert_eq!(error.kind(), ErrorKind::RemoteService);
    assert_eq!(service.get_calls.get(), 1);
    assert_eq!(service.sign_calls.get(), 0);
}

#[test]
fn signer_is_not_asked_to_make_a_signer() {
    let service = FixedService::new(Ok(response(Some("ca-1"), Some(ca_spki_der()))));
    let key = resolve(&service, "ca-1").unwrap();
    let signer = RemoteSigner::new(&service, &key);
    assert_eq!(signer.key().key_id(), "ca-1");
    assert_eq!(service.sign_calls.get(), 0);
}

#[test]
fn kinds_of_errors() {
    let failure = ServiceError { message: String::new() };
    assert_eq!(RemoteKeyError::Service(failure).kind(), ErrorKind::RemoteService);
    assert_eq!(RemoteKeyError::MissingField(MissingField::KeyId).kind(), ErrorKind::RemoteService);
    assert_eq!(RemoteKeyError::MissingField(MissingField::PublicKey).kind(), ErrorKind::RemoteService);
    assert_eq!(RemoteKeyError::Encoding.kind(), ErrorKind::Encoding);
    assert_eq!(RemoteKeyError::UnsupportedAlgorithm.kind(), ErrorKind::UnsupportedAlgorithm);
    assert_eq!(CertError::Clock.kind(), ErrorKind::Clock);
    assert_eq!(CertError::Encoding.kind(), ErrorKind::Encoding);
    assert_eq!(CertError::Signing(SigningFailure).kind(), ErrorKind::SigningFailure);
    assert_eq!(CertError::InvalidSignature.kind(), ErrorKind::SigningFailure);
}

#[test]
fn names_of_algorithms() {
    assert_eq!(SigningAlgorithm::RsassaPkcs1V15Sha512.ssh_name(), "rsa-sha2-512");
    assert_eq!(KeyAlgorithm::Rsa.key_type(), "ssh-rsa");
    assert_eq!(KeyAlgorithm::Rsa.signing_algorithm(), SigningAlgorithm::RsassaPkcs1V15Sha512);
}

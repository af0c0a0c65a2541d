//! A run from end to end: the CA key is resolved first, and only with the
//! key in hand is anything signed.

use crate::cert::{build_and_sign, CertType, SshCertificate, VALIDITY_SECONDS};
use crate::error::{CertError, InvalidKey, RemoteKeyError, RunError};
use crate::key::{openssh_public_key_decoding, CaKey, CaKeyView, SubjectKey};
use crate::resolver::{resolve, spec_ca_key_from_response};
use crate::service::{KeyService, PublicKeyResponseView};
use crate::signer::{is_envelope_of, RemoteSigner};
use vstd::prelude::*;

verus! {

/// Whether `cert` is a user certificate for the key on `subject_line`,
/// issued to `principal` at the time `now`.
pub open spec fn is_certificate_for(
    cert: SshCertificate,
    principal: Seq<char>,
    subject_line: Seq<char>,
    now: int,
) -> bool {
    &&& cert@.wf()
    &&& now >= 0
    &&& openssh_public_key_decoding(subject_line) == Some(cert@.draft.subject)
    &&& cert@.draft.cert_type == CertType::User
    &&& cert@.draft.key_id == principal
    &&& cert@.draft.principals == seq![principal]
    &&& cert@.draft.valid_after == now
    &&& cert@.draft.valid_before == now + VALIDITY_SECONDS
    &&& cert@.draft.valid_after < cert@.draft.valid_before
}

/// Whether `e` may be the error of a run that was to certify the key on
/// `subject_line` at the time `now`: an unreadable key is reported only of a
/// line that is no key, a clock error only of a time before the epoch, and
/// nothing is reported of the configuration.
pub open spec fn is_error_of(e: RunError, subject_line: Seq<char>, now: int) -> bool {
    &&& !(e is Configuration)
    &&& e is Subject ==> openssh_public_key_decoding(subject_line) is None
    &&& e == RunError::Certificate(CertError::Clock) ==> now < 0
}

/// Issues a user certificate under the CA key `ca_key` for the key on
/// `subject_line` to `principal`, valid from `now`.
///
/// The steps, each of which ends the run where it fails: read the subject
/// key; draft, encode, sign and complete the certificate. The service is
/// asked to sign at most once.
pub fn certify<S: KeyService>(
    service: &S,
    ca_key: &CaKey,
    principal: &str,
    subject_line: &str,
    now: i64,
) -> (r: Result<SshCertificate, RunError>)
    ensures
        r matches Ok(cert) ==> {
            &&& is_certificate_for(cert, principal@, subject_line@, now as int)
            &&& cert@.draft.signature_key == ca_key@
            &&& is_envelope_of(cert@.signature, ca_key@.signing_algorithm)
        },
        r matches Err(e) ==> is_error_of(e, subject_line@, now as int) && !(e is Key),
        openssh_public_key_decoding(subject_line@) is None ==> r == Err::<SshCertificate, RunError>(
            RunError::Subject(InvalidKey),
        ),
        openssh_public_key_decoding(subject_line@) is Some && now < 0 ==> r == Err::<
            SshCertificate,
            RunError,
        >(RunError::Certificate(CertError::Clock)),
{
    let subject_key = match SubjectKey::parse(subject_line) {
        Ok(key) => key,
        Err(e) => {
            return Err(RunError::Subject(e));
        },
    };
    let signer = RemoteSigner::new(service, ca_key);
    match build_and_sign(&subject_key, CertType::User, ca_key, principal, now, &signer) {
        Ok(cert) => Ok(cert),
        Err(e) => Err(RunError::Certificate(e)),
    }
}

/// Issues a user certificate, signed by the CA key known to the service as
/// `key_id`, for the key on `subject_line` to `principal`, valid from `now`.
///
/// The CA key is resolved first. Unless that succeeds, the service is not
/// asked to sign.
pub fn issue<S: KeyService>(
    service: &S,
    key_id: &str,
    principal: &str,
    subject_line: &str,
    now: i64,
) -> (r: Result<SshCertificate, RunError>)
    ensures
        r matches Ok(cert) ==> {
            &&& is_certificate_for(cert, principal@, subject_line@, now as int)
            &&& is_envelope_of(cert@.signature, cert@.draft.signature_key.signing_algorithm)
            &&& exists|response: PublicKeyResponseView|
                #[trigger] spec_ca_key_from_response(response) == Ok::<CaKeyView, RemoteKeyError>(
                    cert@.draft.signature_key,
                )
        },
        r matches Err(e) ==> is_error_of(e, subject_line@, now as int),
        r matches Err(RunError::Key(e)) ==> e is Service || exists|response: PublicKeyResponseView|
            #[trigger] spec_ca_key_from_response(response) == Err::<CaKeyView, RemoteKeyError>(e),
{
    match resolve(service, key_id) {
        Ok(ca_key) => certify(service, &ca_key, principal, subject_line, now),
        Err(e) => Err(RunError::Key(e)),
    }
}

} // verus!

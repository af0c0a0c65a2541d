//! Building a certificate: the draft that policy fixes, its encoding for
//! signing, and the signed certificate that the signature completes.
//!
//! A certificate is valid for a fixed time from the moment it is issued, for
//! one principal, with the standard extensions. None of that is the caller's
//! to choose.

use crate::config::same_text;
use crate::envelope::{field, push_field};
use crate::error::{CertError, SigningFailure};
use crate::key::{is_public_key_line, CaKey, CaKeyView, SubjectKey, SubjectKeyView};
use crate::service::KeyService;
use crate::signer::{is_envelope_of, signed_view, RemoteSigner};
use vstd::prelude::*;

verus! {

/// For how many seconds a certificate is valid.
pub const VALIDITY_SECONDS: u64 = 86400;

/// Whom a certificate is for.
#[derive(Clone, Copy, Debug, PartialEq, Eq, Structural)]
pub enum CertType {
    User,
    Host,
}

/// A named capability that a certificate grants, with its value. The value of
/// a capability that is a mere flag is empty.
#[derive(Debug, PartialEq, Eq)]
pub struct Extension {
    pub name: String,
    pub value: String,
}

pub struct ExtensionView {
    pub name: Seq<char>,
    pub value: Seq<char>,
}

impl View for Extension {
    type V = ExtensionView;

    open spec fn view(&self) -> ExtensionView {
        ExtensionView { name: self.name@, value: self.value@ }
    }
}

impl Extension {
    /// The extension as a pair of name and value.
    pub fn to_pair(&self) -> (pair: (String, String))
        ensures
            pair.0@ == self@.name,
            pair.1@ == self@.value,
    {
        (self.name.clone(), self.value.clone())
    }

    /// The extension that a pair of name and value stands for.
    pub fn of_pair(pair: (&String, &String)) -> (extension: Extension)
        ensures
            extension@ == (ExtensionView { name: pair.0@, value: pair.1@ }),
    {
        Extension { name: pair.0.clone(), value: pair.1.clone() }
    }
}

/// The views of a list of extensions.
pub open spec fn extension_views(list: Seq<Extension>) -> Seq<ExtensionView> {
    Seq::new(list.len(), |i: int| list[i]@)
}

/// The texts of a list of strings.
pub open spec fn texts(list: Seq<String>) -> Seq<Seq<char>> {
    Seq::new(list.len(), |i: int| list[i]@)
}

/// Whether `list` holds an extension called `name`.
pub open spec fn has_extension(list: Seq<ExtensionView>, name: Seq<char>) -> bool {
    exists|i: int| 0 <= i < list.len() && (#[trigger] list[i]).name == name
}

/// Whether `list` holds the five standard extensions and nothing else, each
/// as a flag, in whatever order.
pub open spec fn is_standard_extensions(list: Seq<ExtensionView>) -> bool {
    &&& list.len() == 5
    &&& forall|i: int| 0 <= i < list.len() ==> (#[trigger] list[i]).value == Seq::<char>::empty()
    &&& has_extension(list, "permit-agent-forwarding"@)
    &&& has_extension(list, "permit-port-forwarding"@)
    &&& has_extension(list, "permit-pty"@)
    &&& has_extension(list, "permit-user-rc"@)
    &&& has_extension(list, "permit-X11-forwarding"@)
}

/// The bytes to be signed of the certificate that `draft` describes, with
/// the nonce `nonce`, the serial number `serial` and the extensions written
/// in the order of `written`.
pub uninterp spec fn tbs_encoding(
    draft: DraftView,
    nonce: Seq<u8>,
    serial: u64,
    written: Seq<ExtensionView>,
) -> Seq<u8>;

/// What the certificate that `serialized` is holds, if it is a certificate
/// whose signature is that of its own signature key.
pub uninterp spec fn certificate_decoding(serialized: Seq<u8>) -> Option<CertificateFieldsView>;

/// The one-line text of the certificate that `serialized` is.
pub uninterp spec fn certificate_line(serialized: Seq<u8>) -> Seq<char>;

/// `sshcerts::Certificate::standard_extensions`, handed out as a list in the
/// order in which the map is walked. Claimed of it: the five standard
/// extensions of OpenSSH, each once, each with an empty value.
#[verifier::external_body]
fn standard_extensions() -> (list: Vec<Extension>)
    ensures
        is_standard_extensions(extension_views(list@)),
{
    sshcerts::Certificate::standard_extensions().into_iter().map(
        |(name, value)| Extension { name, value },
    ).collect()
}

/// `sshcerts::Certificate::builder` with the draft's subject key, type and CA
/// key, the builder's setters for principals, key id, extensions and validity,
/// and `tbs_certificate` of what they give. The builder draws nonce and
/// serial number at random and keeps the extensions in a map, so they are
/// handed back with the bytes: the nonce, the serial number, and the
/// extensions in the order in which the map is walked. The bytes are trusted
/// to be a function of the draft and of these three.
#[verifier::external_body]
fn encode_draft(draft: &Draft) -> (r: Result<Encoded, sshcerts::error::Error>)
    ensures
        r matches Ok(e) ==> e.tbs@ == tbs_encoding(
            draft@,
            e.nonce@,
            e.serial,
            extension_views(e.written@),
        ),
{
    let subject = sshcerts::PublicKey::from_bytes(draft.subject.blob())?;
    let ca = sshcerts::PublicKey::from_string(draft.signature_key.openssh())?;
    let kind = match draft.cert_type {
        CertType::User => sshcerts::CertType::User,
        CertType::Host => sshcerts::CertType::Host,
    };
    let cert = sshcerts::Certificate::builder(&subject, kind, &ca)?
        .set_principals(&draft.principals).key_id(&draft.key_id)
        .set_extensions(draft.extensions.iter().map(Extension::to_pair).collect())
        .valid_after(draft.valid_after).valid_before(draft.valid_before);
    let written = cert.extensions.iter().map(Extension::of_pair).collect();
    Ok(Encoded { tbs: cert.tbs_certificate(), written, nonce: cert.nonce, serial: cert.serial })
}

/// `sshcerts::Certificate::from_bytes`, which checks the signature at the end
/// of the bytes against the signature key in them, and of the certificate
/// that it gives the name of the key type, the key id, the principals, the
/// validity, the type, and the line that its `Display` writes. Fields and
/// line are trusted to be functions of the bytes alone. Claimed of the line
/// besides: it is the name of the key type, the encoded certificate and the
/// key id, with one space between them.
#[verifier::external_body]
fn decode_certificate(serialized: &[u8]) -> (r: Result<Decoded, sshcerts::error::Error>)
    ensures
        r is Ok <==> certificate_decoding(serialized@) is Some,
        r matches Ok(d) ==> certificate_decoding(serialized@) == Some(d.fields@),
        r matches Ok(d) ==> d.line@ == certificate_line(serialized@),
        r matches Ok(d) ==> is_public_key_line(d.line@, d.fields.key_type@, d.fields.key_id@),
{
    let cert = sshcerts::Certificate::from_bytes(serialized)?;
    let cert_type = match cert.cert_type {
        sshcerts::CertType::User => CertType::User,
        sshcerts::CertType::Host => CertType::Host,
    };
    let line = cert.to_string();
    let key_type = cert.key_type.name.to_string();
    let (key_id, principals) = (cert.key_id, cert.principals);
    let (valid_after, valid_before) = (cert.valid_after, cert.valid_before);
    Ok(Decoded {
        line,
        fields: CertificateFields { key_type, key_id, principals, valid_after, valid_before, cert_type },
    })
}

/// The bytes to be signed, with what went into them besides the draft.
struct Encoded {
    tbs: Vec<u8>,
    nonce: Vec<u8>,
    serial: u64,
    written: Vec<Extension>,
}

/// A certificate as read back from its wire format: its fields and its line
/// of text.
struct Decoded {
    fields: CertificateFields,
    line: String,
}

/// What a certificate in wire format holds, as far as it is compared with
/// what was drafted.
#[derive(Debug, PartialEq, Eq)]
pub struct CertificateFields {
    /// The SSH key type of the certificate.
    pub key_type: String,
    pub key_id: String,
    pub principals: Vec<String>,
    pub valid_after: u64,
    pub valid_before: u64,
    pub cert_type: CertType,
}

pub struct CertificateFieldsView {
    pub key_type: Seq<char>,
    pub key_id: Seq<char>,
    pub principals: Seq<Seq<char>>,
    pub valid_after: u64,
    pub valid_before: u64,
    pub cert_type: CertType,
}

impl View for CertificateFields {
    type V = CertificateFieldsView;

    open spec fn view(&self) -> CertificateFieldsView {
        CertificateFieldsView {
            key_type: self.key_type@,
            key_id: self.key_id@,
            principals: texts(self.principals@),
            valid_after: self.valid_after,
            valid_before: self.valid_before,
            cert_type: self.cert_type,
        }
    }
}

/// A certificate before it is signed: everything but the signature.
#[derive(Debug)]
pub struct Draft {
    subject: SubjectKey,
    cert_type: CertType,
    key_id: String,
    principals: Vec<String>,
    valid_after: u64,
    valid_before: u64,
    extensions: Vec<Extension>,
    signature_key: CaKey,
}

pub struct DraftView {
    /// The key that is certified.
    pub subject: SubjectKeyView,
    pub cert_type: CertType,
    pub key_id: Seq<char>,
    pub principals: Seq<Seq<char>>,
    /// The first second, counted from the epoch, at which the certificate is
    /// valid.
    pub valid_after: u64,
    /// The second at which it is no longer valid.
    pub valid_before: u64,
    pub extensions: Seq<ExtensionView>,
    /// The CA key that is to sign.
    pub signature_key: CaKeyView,
}

impl DraftView {
    /// What policy asks of every certificate: validity for the fixed time, one
    /// principal who is also the key id, the standard extensions, a
    /// well-formed CA key.
    pub open spec fn wf(self) -> bool {
        &&& self.valid_before == self.valid_after + VALIDITY_SECONDS
        &&& self.valid_after < self.valid_before
        &&& self.principals == seq![self.key_id]
        &&& is_standard_extensions(self.extensions)
        &&& self.signature_key.wf()
    }

    /// What a certificate made of this draft holds in its wire format.
    pub open spec fn fields(self) -> CertificateFieldsView {
        CertificateFieldsView {
            key_type: self.subject.cert_key_type,
            key_id: self.key_id,
            principals: self.principals,
            valid_after: self.valid_after,
            valid_before: self.valid_before,
            cert_type: self.cert_type,
        }
    }

    /// Whether this is the draft, with whatever order of extensions, of a
    /// certificate of type `cert_type` that the CA `ca` issues at the time
    /// `now` to `principal` for the key `subject`.
    pub open spec fn is_draft_of(
        self,
        subject: SubjectKeyView,
        cert_type: CertType,
        ca: CaKeyView,
        principal: Seq<char>,
        now: int,
    ) -> bool {
        &&& self.subject == subject
        &&& self.cert_type == cert_type
        &&& self.key_id == principal
        &&& self.principals == seq![principal]
        &&& self.valid_after == now
        &&& self.valid_before == now + VALIDITY_SECONDS
        &&& is_standard_extensions(self.extensions)
        &&& self.signature_key == ca
    }
}

impl View for Draft {
    type V = DraftView;

    closed spec fn view(&self) -> DraftView {
        DraftView {
            subject: self.subject@,
            cert_type: self.cert_type,
            key_id: self.key_id@,
            principals: texts(self.principals@),
            valid_after: self.valid_after,
            valid_before: self.valid_before,
            extensions: extension_views(self.extensions@),
            signature_key: self.signature_key@,
        }
    }
}

impl Draft {
    #[verifier::type_invariant]
    spec fn inv(self) -> bool {
        self@.wf()
    }

    /// Drafts the certificate of type `cert_type` that the CA `ca` issues at
    /// the time `now`, in seconds from the epoch, to `principal` for the key
    /// `subject`. There is no certificate for a time before the epoch.
    pub fn new(subject: SubjectKey, cert_type: CertType, ca: &CaKey, principal: &str, now: i64) -> (r:
        Result<Draft, CertError>)
        ensures
            now < 0 ==> r == Err::<Draft, CertError>(CertError::Clock),
            now >= 0 ==> r is Ok,
            r matches Ok(draft) ==> draft@.wf() && draft@.is_draft_of(
                subject@,
                cert_type,
                ca@,
                principal@,
                now as int,
            ),
    {
        if now < 0 {
            return Err(CertError::Clock);
        }
        let valid_after: u64 = now as u64;
        let valid_before: u64 = valid_after + VALIDITY_SECONDS;
        let mut principals: Vec<String> = Vec::new();
        principals.push(principal.to_owned());
        let extensions = standard_extensions();
        let signature_key = ca.clone();
        proof {
            assert(texts(principals@) =~= seq![principal@]);
        }
        Ok(
            Draft {
                subject,
                cert_type,
                key_id: principal.to_owned(),
                principals,
                valid_after,
                valid_before,
                extensions,
                signature_key,
            },
        )
    }

    /// Whom the certificate is to be for.
    pub fn cert_type(&self) -> (t: CertType)
        ensures
            t == self@.cert_type,
    {
        self.cert_type
    }

    /// The key id, which is the principal.
    pub fn key_id(&self) -> (id: &str)
        ensures
            id@ == self@.key_id,
            self@.principals == seq![id@],
    {
        proof {
            use_type_invariant(self);
        }
        self.key_id.as_str()
    }

    /// The first second at which the certificate is to be valid.
    pub fn valid_after(&self) -> (t: u64)
        ensures
            t == self@.valid_after,
    {
        self.valid_after
    }

    /// The second at which the certificate is to be valid no longer: the
    /// fixed time after the first.
    pub fn valid_before(&self) -> (t: u64)
        ensures
            t == self@.valid_before,
            t == self@.valid_after + VALIDITY_SECONDS,
    {
        proof {
            use_type_invariant(self);
        }
        self.valid_before
    }

    /// Whether a certificate that holds `fields` holds what was drafted.
    pub fn is_held_by(&self, fields: &CertificateFields) -> (held: bool)
        ensures
            held == (fields@ == self@.fields()),
    {
        proof {
            use_type_invariant(self);
        }
        if fields.principals.len() != 1 {
            assert(fields@.principals.len() != 1);
            assert(self@.fields().principals.len() == 1);
            return false;
        }
        let held = same_text(fields.key_type.as_str(), self.subject.cert_key_type())
            && same_text(fields.key_id.as_str(), self.key_id.as_str())
            && same_text(fields.principals[0].as_str(), self.key_id.as_str())
            && fields.valid_after == self.valid_after && fields.valid_before == self.valid_before
            && fields.cert_type == self.cert_type;
        proof {
            if held {
                assert(fields@.principals =~= seq![self@.key_id]);
            } else if fields@ == self@.fields() {
                assert(fields@.principals[0] == self@.key_id);
            }
        }
        held
    }

    /// Encodes the draft as the bytes that are to be signed. The encoding
    /// holds a fresh nonce and serial number, so two encodings of one draft
    /// differ; what comes out says which nonce and serial number it holds.
    pub fn encode(self) -> (r: Result<UnsignedCertificate, CertError>)
        ensures
            match r {
                Ok(unsigned) => {
                    &&& unsigned@.draft == self@
                    &&& unsigned@.wf()
                    &&& exists|nonce: Seq<u8>, serial: u64, written: Seq<ExtensionView>|
                        unsigned@.tbs == #[trigger] tbs_encoding(self@, nonce, serial, written)
                },
                Err(e) => e == CertError::Encoding,
            },
    {
        proof {
            use_type_invariant(&self);
        }
        match encode_draft(&self) {
            Ok(encoded) => {
                let unsigned = UnsignedCertificate {
                    draft: self,
                    tbs: encoded.tbs,
                    nonce: encoded.nonce,
                    serial: encoded.serial,
                    written: encoded.written,
                };
                assert(unsigned@.tbs == tbs_encoding(
                    unsigned@.draft,
                    unsigned@.nonce,
                    unsigned@.serial,
                    unsigned@.written,
                ));
                Ok(unsigned)
            },
            Err(_) => Err(CertError::Encoding),
        }
    }
}

/// A drafted certificate together with its encoding for signing.
#[derive(Debug)]
pub struct UnsignedCertificate {
    draft: Draft,
    tbs: Vec<u8>,
    nonce: Vec<u8>,
    serial: u64,
    written: Vec<Extension>,
}

pub struct UnsignedCertificateView {
    pub draft: DraftView,
    /// The bytes that are to be signed.
    pub tbs: Seq<u8>,
    /// The nonce that the bytes hold.
    pub nonce: Seq<u8>,
    /// The serial number that the bytes hold.
    pub serial: u64,
    /// The extensions in the order in which the bytes hold them.
    pub written: Seq<ExtensionView>,
}

impl UnsignedCertificateView {
    /// The draft is what policy asks for, and the bytes are the encoding of
    /// the draft with the nonce, the serial number and the order of
    /// extensions that stand beside them.
    pub open spec fn wf(self) -> bool {
        &&& self.draft.wf()
        &&& self.tbs == tbs_encoding(self.draft, self.nonce, self.serial, self.written)
    }
}

impl View for UnsignedCertificate {
    type V = UnsignedCertificateView;

    closed spec fn view(&self) -> UnsignedCertificateView {
        UnsignedCertificateView {
            draft: self.draft@,
            tbs: self.tbs@,
            nonce: self.nonce@,
            serial: self.serial,
            written: extension_views(self.written@),
        }
    }
}

/// The bytes of a signed certificate: what was signed, then the signature
/// envelope as a length-prefixed field.
pub open spec fn spec_seal(tbs: Seq<u8>, envelope: Seq<u8>) -> Seq<u8>
    recommends
        envelope.len() <= u32::MAX,
{
    tbs + field(envelope)
}

/// What completing an unsigned certificate with the outcome of signing
/// gives: the first of these that applies decides.
///
/// - no signature: the signing failure;
/// - an envelope too long for a field: an encoding error;
/// - bytes that are no certificate signed by its own signature key: an
///   invalid signature;
/// - bytes that are a certificate, but not of what was drafted: an encoding
///   error;
/// - else the certificate.
pub open spec fn spec_complete(
    unsigned: UnsignedCertificateView,
    signed: Result<Seq<u8>, SigningFailure>,
) -> Result<SshCertificateView, CertError> {
    match signed {
        Err(failure) => Err(CertError::Signing(failure)),
        Ok(envelope) => if envelope.len() > u32::MAX {
            Err(CertError::Encoding)
        } else {
            match certificate_decoding(spec_seal(unsigned.tbs, envelope)) {
                None => Err(CertError::InvalidSignature),
                Some(fields) => if fields == unsigned.draft.fields() {
                    Ok(
                        SshCertificateView {
                            draft: unsigned.draft,
                            tbs: unsigned.tbs,
                            nonce: unsigned.nonce,
                            serial: unsigned.serial,
                            written: unsigned.written,
                            signature: envelope,
                            serialized: spec_seal(unsigned.tbs, envelope),
                            text: certificate_line(spec_seal(unsigned.tbs, envelope)),
                        },
                    )
                } else {
                    Err(CertError::Encoding)
                },
            }
        },
    }
}

/// Whether a result of completing is the one that `expected` describes.
pub open spec fn completes_to(
    r: Result<SshCertificate, CertError>,
    expected: Result<SshCertificateView, CertError>,
) -> bool {
    match (r, expected) {
        (Ok(cert), Ok(view)) => cert@ == view,
        (Err(e), Err(f)) => e == f,
        _ => false,
    }
}

/// A certificate is valid for the fixed time, which is more than none: it is
/// never valid before it is valid after. That holds of the certificate's
/// fields and of the certificate that its wire format decodes to.
pub proof fn lemma_validity(cert: SshCertificateView)
    requires
        cert.wf(),
    ensures
        cert.draft.valid_after < cert.draft.valid_before,
        cert.draft.valid_before - cert.draft.valid_after == VALIDITY_SECONDS,
        certificate_decoding(cert.serialized) is Some,
        certificate_decoding(cert.serialized)->0.valid_after == cert.draft.valid_after,
        certificate_decoding(cert.serialized)->0.valid_before == cert.draft.valid_after
            + VALIDITY_SECONDS,
{
}

/// The line of a certificate has three parts, set apart by single spaces:
/// the key type of a certificate for the subject key, the encoded
/// certificate, and the key id, which is the principal. The wire format that
/// the line stands for decodes to what was drafted.
pub proof fn lemma_certificate_line(cert: SshCertificateView)
    requires
        cert.wf(),
    ensures
        is_public_key_line(cert.text, cert.draft.subject.cert_key_type, cert.draft.key_id),
        cert.text == certificate_line(cert.serialized),
        certificate_decoding(cert.serialized) == Some(cert.draft.fields()),
        cert.draft.principals == seq![cert.draft.key_id],
{
}

/// Without a signature there is no certificate.
pub proof fn lemma_no_signature_no_certificate(unsigned: UnsignedCertificateView, failure: SigningFailure)
    ensures
        spec_complete(unsigned, Err(failure)) == Err::<SshCertificateView, CertError>(
            CertError::Signing(failure),
        ),
{
}

/// Completing changes nothing of what was drafted and signed: the certificate
/// holds the draft, and its wire format is what was signed followed by the
/// signature.
pub proof fn lemma_complete_keeps_draft(
    unsigned: UnsignedCertificateView,
    envelope: Seq<u8>,
    cert: SshCertificateView,
)
    requires
        unsigned.wf(),
        spec_complete(unsigned, Ok(envelope)) == Ok::<SshCertificateView, CertError>(cert),
    ensures
        cert.draft == unsigned.draft,
        cert.tbs == unsigned.tbs,
        cert.tbs == tbs_encoding(cert.draft, cert.nonce, cert.serial, cert.written),
        cert.signature == envelope,
        cert.serialized == unsigned.tbs + field(envelope),
        certificate_decoding(cert.serialized) == Some(unsigned.draft.fields()),
        cert.text == certificate_line(cert.serialized),
{
}

/// A certificate whose encoding does not hold what was drafted is no
/// certificate, however well it is signed.
pub proof fn lemma_complete_compares(unsigned: UnsignedCertificateView, envelope: Seq<u8>)
    requires
        envelope.len() <= u32::MAX,
        certificate_decoding(spec_seal(unsigned.tbs, envelope)) is Some,
        certificate_decoding(spec_seal(unsigned.tbs, envelope)) != Some(unsigned.draft.fields()),
    ensures
        spec_complete(unsigned, Ok(envelope)) == Err::<SshCertificateView, CertError>(
            CertError::Encoding,
        ),
{
}

/// Puts a signature envelope behind the bytes that were signed.
pub fn seal(tbs: &[u8], envelope: &[u8]) -> (serialized: Vec<u8>)
    requires
        envelope@.len() <= u32::MAX,
    ensures
        serialized@ == spec_seal(tbs@, envelope@),
{
    let mut serialized: Vec<u8> = Vec::new();
    let mut i: usize = 0;
    while i < tbs.len()
        invariant
            i <= tbs@.len(),
            serialized@ == tbs@.subrange(0, i as int),
        decreases tbs@.len() - i,
    {
        serialized.push(tbs[i]);
        i += 1;
    }
    assert(tbs@.subrange(0, i as int) =~= tbs@);
    push_field(&mut serialized, envelope);
    serialized
}

impl UnsignedCertificate {
    #[verifier::type_invariant]
    spec fn inv(self) -> bool {
        self@.wf()
    }

    /// The bytes that are to be signed: the encoding of the draft.
    pub fn to_be_signed(&self) -> (bytes: &[u8])
        ensures
            bytes@ == self@.tbs,
            bytes@ == tbs_encoding(self@.draft, self@.nonce, self@.serial, self@.written),
    {
        proof {
            use_type_invariant(self);
        }
        self.tbs.as_slice()
    }

    /// The nonce that the bytes hold.
    pub fn nonce(&self) -> (bytes: &[u8])
        ensures
            bytes@ == self@.nonce,
    {
        self.nonce.as_slice()
    }

    /// The serial number that the bytes hold.
    pub fn serial(&self) -> (n: u64)
        ensures
            n == self@.serial,
    {
        self.serial
    }

    /// The draft that the bytes encode.
    pub fn draft(&self) -> (draft: &Draft)
        ensures
            draft@ == self@.draft,
            draft@.wf(),
    {
        proof {
            use_type_invariant(self);
        }
        &self.draft
    }

    /// Completes the certificate with the outcome of signing its bytes.
    /// Without a signature that the CA key made of these bytes there is no
    /// certificate.
    pub fn complete(self, signed: Result<Vec<u8>, SigningFailure>) -> (r: Result<
        SshCertificate,
        CertError,
    >)
        ensures
            completes_to(r, spec_complete(self@, signed_view(signed))),
            r matches Ok(cert) ==> cert@.wf(),
    {
        proof {
            use_type_invariant(&self);
        }
        let signature = match signed {
            Ok(signature) => signature,
            Err(failure) => {
                return Err(CertError::Signing(failure));
            },
        };
        if signature.len() > 0xffff_ffff {
            return Err(CertError::Encoding);
        }
        let serialized = seal(self.tbs.as_slice(), signature.as_slice());
        let decoded = match decode_certificate(serialized.as_slice()) {
            Ok(decoded) => decoded,
            Err(_) => {
                return Err(CertError::InvalidSignature);
            },
        };
        if !self.draft.is_held_by(&decoded.fields) {
            return Err(CertError::Encoding);
        }
        Ok(SshCertificate { unsigned: self, signature, serialized, text: decoded.line })
    }
}

/// A signed certificate. Once made it does not change.
#[derive(Debug)]
pub struct SshCertificate {
    unsigned: UnsignedCertificate,
    signature: Vec<u8>,
    serialized: Vec<u8>,
    text: String,
}

pub struct SshCertificateView {
    pub draft: DraftView,
    /// The bytes that were signed.
    pub tbs: Seq<u8>,
    /// The nonce that the bytes hold.
    pub nonce: Seq<u8>,
    /// The serial number that the bytes hold.
    pub serial: u64,
    /// The extensions in the order in which the bytes hold them.
    pub written: Seq<ExtensionView>,
    /// The signature envelope.
    pub signature: Seq<u8>,
    /// The certificate in SSH wire format.
    pub serialized: Seq<u8>,
    /// The certificate as one line of text: key type, the wire format in
    /// base64, and the key id.
    pub text: Seq<char>,
}

impl SshCertificateView {
    /// The draft is what policy asks for. What was signed is the encoding of
    /// the draft, and the wire format is what was signed followed by the
    /// signature. The wire format decodes to what was drafted, and the text
    /// is its line: key type, encoded certificate and key id.
    pub open spec fn wf(self) -> bool {
        &&& self.draft.wf()
        &&& self.tbs == tbs_encoding(self.draft, self.nonce, self.serial, self.written)
        &&& self.signature.len() <= u32::MAX
        &&& self.serialized == spec_seal(self.tbs, self.signature)
        &&& certificate_decoding(self.serialized) == Some(self.draft.fields())
        &&& self.text == certificate_line(self.serialized)
        &&& is_public_key_line(self.text, self.draft.subject.cert_key_type, self.draft.key_id)
    }
}

impl View for SshCertificate {
    type V = SshCertificateView;

    closed spec fn view(&self) -> SshCertificateView {
        SshCertificateView {
            draft: self.unsigned@.draft,
            tbs: self.unsigned@.tbs,
            nonce: self.unsigned@.nonce,
            serial: self.unsigned@.serial,
            written: self.unsigned@.written,
            signature: self.signature@,
            serialized: self.serialized@,
            text: self.text@,
        }
    }
}

impl SshCertificate {
    #[verifier::type_invariant]
    spec fn inv(self) -> bool {
        self@.wf()
    }

    /// The first second at which the certificate is valid.
    pub fn valid_after(&self) -> (t: u64)
        ensures
            t == self@.draft.valid_after,
            self@.wf(),
    {
        proof {
            use_type_invariant(self);
        }
        self.unsigned.draft.valid_after
    }

    /// The second at which the certificate is no longer valid: the fixed
    /// time after the first.
    pub fn valid_before(&self) -> (t: u64)
        ensures
            t == self@.draft.valid_before,
            t == self@.draft.valid_after + VALIDITY_SECONDS,
            self@.wf(),
    {
        proof {
            use_type_invariant(self);
        }
        self.unsigned.draft.valid_before
    }

    /// Whom the certificate is for.
    pub fn cert_type(&self) -> (t: CertType)
        ensures
            t == self@.draft.cert_type,
    {
        self.unsigned.draft.cert_type
    }

    /// The key id, which is the principal.
    pub fn key_id(&self) -> (id: &str)
        ensures
            id@ == self@.draft.key_id,
    {
        self.unsigned.draft.key_id.as_str()
    }

    /// The principals: the one that the certificate was issued to.
    pub fn principals(&self) -> (list: &Vec<String>)
        ensures
            texts(list@) == self@.draft.principals,
            self@.draft.principals == seq![self@.draft.key_id],
    {
        proof {
            use_type_invariant(self);
        }
        &self.unsigned.draft.principals
    }

    /// The capabilities that the certificate grants.
    pub fn extensions(&self) -> (list: &Vec<Extension>)
        ensures
            extension_views(list@) == self@.draft.extensions,
            is_standard_extensions(self@.draft.extensions),
    {
        proof {
            use_type_invariant(self);
        }
        &self.unsigned.draft.extensions
    }

    /// The key that is certified.
    pub fn subject_public_key(&self) -> (key: &SubjectKey)
        ensures
            key@ == self@.draft.subject,
    {
        &self.unsigned.draft.subject
    }

    /// The CA key that signed.
    pub fn signature_key(&self) -> (key: &CaKey)
        ensures
            key@ == self@.draft.signature_key,
    {
        &self.unsigned.draft.signature_key
    }

    /// The signature envelope.
    pub fn signature(&self) -> (bytes: &[u8])
        ensures
            bytes@ == self@.signature,
    {
        self.signature.as_slice()
    }

    /// The certificate in SSH wire format.
    pub fn serialized(&self) -> (bytes: &[u8])
        ensures
            bytes@ == self@.serialized,
            bytes@ == spec_seal(self@.tbs, self@.signature),
    {
        proof {
            use_type_invariant(self);
        }
        self.serialized.as_slice()
    }

    /// The certificate as one line of text, without a line end: the key
    /// type of a certificate for the subject key, the encoded certificate,
    /// and the key id.
    pub fn to_line(&self) -> (line: &str)
        ensures
            line@ == self@.text,
            line@ == certificate_line(self@.serialized),
            is_public_key_line(line@, self@.draft.subject.cert_key_type, self@.draft.key_id),
    {
        proof {
            use_type_invariant(self);
        }
        self.text.as_str()
    }

    /// What a certificate file holds: the line and a line end.
    pub fn file_contents(&self) -> (contents: String)
        ensures
            contents@ == self@.text + seq!['\n'],
            is_public_key_line(self@.text, self@.draft.subject.cert_key_type, self@.draft.key_id),
    {
        proof {
            use_type_invariant(self);
        }
        let mut contents = self.text.clone();
        proof {
            reveal_strlit("\n");
            assert("\n"@ =~= seq!['\n']);
        }
        contents.append("\n");
        contents
    }
}

/// Issues a certificate: drafts it, encodes it, has `signer` sign the
/// encoding, once, and completes it with the signature. Either a signed
/// certificate comes out or an error; a certificate that lacks a valid
/// signature never does.
pub fn build_and_sign<S: KeyService>(
    subject_key: &SubjectKey,
    cert_type: CertType,
    ca_key: &CaKey,
    principal: &str,
    now: i64,
    signer: &RemoteSigner<S>,
) -> (r: Result<SshCertificate, CertError>)
    ensures
        now < 0 <==> r == Err::<SshCertificate, CertError>(CertError::Clock),
        r matches Ok(cert) ==> {
            &&& cert@.wf()
            &&& cert@.draft.is_draft_of(subject_key@, cert_type, ca_key@, principal@, now as int)
            &&& cert@.draft.valid_after < cert@.draft.valid_before
            &&& cert@.draft.valid_before - cert@.draft.valid_after == VALIDITY_SECONDS
            &&& is_envelope_of(cert@.signature, signer.spec_key()@.signing_algorithm)
        },
{
    let draft = match Draft::new(subject_key.clone(), cert_type, ca_key, principal, now) {
        Ok(draft) => draft,
        Err(e) => {
            return Err(e);
        },
    };
    let unsigned = match draft.encode() {
        Ok(unsigned) => unsigned,
        Err(e) => {
            return Err(e);
        },
    };
    let signed = signer.sign(unsigned.to_be_signed());
    unsigned.complete(signed)
}

} // verus!

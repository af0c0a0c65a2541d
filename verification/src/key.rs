//! The certificate authority's public key, as the certificate pipeline holds
//! it: plain bytes, tagged by algorithm.

use crate::error::{InvalidKey, RemoteKeyError};
use vstd::prelude::*;

verus! {

/// The error of the `sshcerts` crate.
#[verifier::external_type_specification]
#[verifier::external_body]
pub struct ExSshError(sshcerts::error::Error);

/// A signing algorithm of the remote service.
#[derive(Clone, Copy, Debug, PartialEq, Eq, Structural)]
pub enum SigningAlgorithm {
    /// RSASSA-PKCS1-v1_5 with SHA-512.
    RsassaPkcs1V15Sha512,
}

/// A key algorithm that a CA key may have.
#[derive(Clone, Copy, Debug, PartialEq, Eq, Structural)]
pub enum KeyAlgorithm {
    Rsa,
}

impl SigningAlgorithm {
    /// The name under which SSH knows signatures of this algorithm.
    pub open spec fn spec_ssh_name(self) -> Seq<char> {
        match self {
            SigningAlgorithm::RsassaPkcs1V15Sha512 => "rsa-sha2-512"@,
        }
    }

    /// The name under which SSH knows signatures of this algorithm.
    pub fn ssh_name(self) -> (name: &'static str)
        ensures
            name@ == self.spec_ssh_name(),
    {
        match self {
            SigningAlgorithm::RsassaPkcs1V15Sha512 => "rsa-sha2-512",
        }
    }
}

impl KeyAlgorithm {
    /// The signing algorithm that keys of this algorithm sign with.
    pub open spec fn spec_signing_algorithm(self) -> SigningAlgorithm {
        match self {
            KeyAlgorithm::Rsa => SigningAlgorithm::RsassaPkcs1V15Sha512,
        }
    }

    /// The SSH key type of keys of this algorithm.
    pub open spec fn spec_key_type(self) -> Seq<char> {
        match self {
            KeyAlgorithm::Rsa => "ssh-rsa"@,
        }
    }

    /// The signing algorithm that keys of this algorithm sign with.
    pub fn signing_algorithm(self) -> (a: SigningAlgorithm)
        ensures
            a == self.spec_signing_algorithm(),
    {
        match self {
            KeyAlgorithm::Rsa => SigningAlgorithm::RsassaPkcs1V15Sha512,
        }
    }

    /// The SSH key type of keys of this algorithm.
    pub fn key_type(self) -> (name: &'static str)
        ensures
            name@ == self.spec_key_type(),
    {
        match self {
            KeyAlgorithm::Rsa => "ssh-rsa",
        }
    }
}

/// An RSA public key: exponent and modulus, each as big-endian bytes.
#[derive(Debug, PartialEq, Eq)]
pub struct RsaPublicKey {
    pub e: Vec<u8>,
    pub n: Vec<u8>,
}

pub struct RsaPublicKeyView {
    pub e: Seq<u8>,
    pub n: Seq<u8>,
}

impl View for RsaPublicKey {
    type V = RsaPublicKeyView;

    open spec fn view(&self) -> RsaPublicKeyView {
        RsaPublicKeyView { e: self.e@, n: self.n@ }
    }
}

impl Clone for RsaPublicKey {
    fn clone(&self) -> (r: Self)
        ensures
            r@ == self@,
    {
        RsaPublicKey { e: self.e.clone(), n: self.n.clone() }
    }
}

/// Public key material, tagged by its algorithm.
#[derive(Debug, PartialEq, Eq)]
pub enum PublicKey {
    Rsa(RsaPublicKey),
}

pub enum PublicKeyView {
    Rsa(RsaPublicKeyView),
}

impl View for PublicKey {
    type V = PublicKeyView;

    open spec fn view(&self) -> PublicKeyView {
        match self {
            PublicKey::Rsa(k) => PublicKeyView::Rsa(k@),
        }
    }
}

impl Clone for PublicKey {
    fn clone(&self) -> (r: Self)
        ensures
            r@ == self@,
    {
        match self {
            PublicKey::Rsa(k) => PublicKey::Rsa(k.clone()),
        }
    }
}

impl PublicKeyView {
    pub open spec fn algorithm(self) -> KeyAlgorithm {
        match self {
            PublicKeyView::Rsa(_) => KeyAlgorithm::Rsa,
        }
    }
}

impl PublicKey {
    /// The algorithm of this key.
    pub fn algorithm(&self) -> (a: KeyAlgorithm)
        ensures
            a == self@.algorithm(),
    {
        match self {
            PublicKey::Rsa(_) => KeyAlgorithm::Rsa,
        }
    }
}

/// The OpenSSH public key line of an RSA key with the given exponent,
/// modulus and comment.
pub uninterp spec fn openssh_rsa_public_key(e: Seq<u8>, n: Seq<u8>, comment: Seq<char>) -> Seq<char>;

/// What an OpenSSH public key line holds, if it is one: the key type, the key
/// type of a certificate for the key, the key in SSH wire format and the
/// comment.
pub uninterp spec fn openssh_public_key_decoding(line: Seq<char>) -> Option<SubjectKeyView>;

/// The OpenSSH public key line of a key with the given comment.
pub open spec fn spec_openssh(key: PublicKeyView, comment: Seq<char>) -> Seq<char> {
    match key {
        PublicKeyView::Rsa(k) => openssh_rsa_public_key(k.e, k.n, comment),
    }
}

/// Whether `line` has the three parts of an OpenSSH public key line, set
/// apart by single spaces: the key type `key_type`, the key in some encoding,
/// and the comment `comment`.
pub open spec fn is_public_key_line(line: Seq<char>, key_type: Seq<char>, comment: Seq<char>) -> bool {
    exists|encoded: Seq<char>| line == #[trigger] public_key_line(key_type, encoded, comment)
}

/// The OpenSSH public key line with the given three parts.
pub open spec fn public_key_line(key_type: Seq<char>, encoded: Seq<char>, comment: Seq<char>) -> Seq<
    char,
> {
    key_type + seq![' '] + encoded + seq![' '] + comment
}

/// `sshcerts::PublicKey`, made of the key type that `KeyType::from_name`
/// gives for "ssh-rsa" and of an `RsaPublicKey` with the given exponent and
/// modulus, written out by its `Display`. The line is trusted to be a
/// function of exponent, modulus and comment alone. Claimed of it besides:
/// there always is one, since "ssh-rsa" is a key type that the crate knows
/// and writing a key out cannot fail; and it is the name of the key type, the
/// encoded key and the comment, with one space between them.
#[verifier::external_body]
fn format_rsa_public_key(key: &RsaPublicKey, comment: &str) -> (r: Result<
    String,
    sshcerts::error::Error,
>)
    ensures
        r is Ok,
        r matches Ok(line) ==> line@ == openssh_rsa_public_key(key.e@, key.n@, comment@),
        r matches Ok(line) ==> is_public_key_line(line@, "ssh-rsa"@, comment@),
{
    let key = sshcerts::PublicKey {
        key_type: sshcerts::ssh::KeyType::from_name("ssh-rsa")?,
        kind: sshcerts::ssh::PublicKeyKind::Rsa(
            sshcerts::ssh::RsaPublicKey { e: key.e.clone(), n: key.n.clone() },
        ),
        comment: Some(comment.to_string()),
    };
    Ok(key.to_string())
}

/// `sshcerts::PublicKey::from_string`, and of the key that it gives the name
/// of its key type, what `as_cert_name` makes of the key type, its `encode()`
/// and its comment. The four are trusted to be a function of the line alone;
/// nothing more is claimed of them.
#[verifier::external_body]
fn parse_public_key(line: &str) -> (r: Result<SubjectKey, sshcerts::error::Error>)
    ensures
        r is Ok <==> openssh_public_key_decoding(line@) is Some,
        r matches Ok(key) ==> openssh_public_key_decoding(line@) == Some(key@),
{
    let key = sshcerts::PublicKey::from_string(line)?;
    Ok(SubjectKey {
        key_type: key.key_type.name.to_string(),
        cert_key_type: key.key_type.as_cert_name(),
        blob: key.encode(),
        comment: key.comment,
    })
}

/// The certificate authority's public identity. The private half of the key
/// never leaves the remote service.
#[derive(Debug, PartialEq, Eq)]
pub struct CaKey {
    key_id: String,
    public_key: PublicKey,
    signing_algorithm: SigningAlgorithm,
    openssh: String,
}

pub struct CaKeyView {
    /// The handle of the key at the remote service, and the key's SSH comment.
    pub key_id: Seq<char>,
    pub public_key: PublicKeyView,
    pub signing_algorithm: SigningAlgorithm,
    /// The key as an OpenSSH public key line.
    pub openssh: Seq<char>,
}

impl CaKeyView {
    /// The signing algorithm is the one that the key's algorithm is bound to,
    /// and the OpenSSH line is that of the key with the handle as comment.
    pub open spec fn wf(self) -> bool {
        &&& self.signing_algorithm == self.public_key.algorithm().spec_signing_algorithm()
        &&& spec_openssh(self.public_key, self.key_id) == self.openssh
        &&& is_public_key_line(self.openssh, self.key_type(), self.comment())
    }

    /// The SSH key type of the key.
    pub open spec fn key_type(self) -> Seq<char> {
        self.public_key.algorithm().spec_key_type()
    }

    /// The comment of the key as an SSH public key.
    pub open spec fn comment(self) -> Seq<char> {
        self.key_id
    }
}

/// The CA key that a handle and key material make.
pub open spec fn spec_ca_key(key_id: Seq<char>, public_key: PublicKeyView) -> CaKeyView {
    CaKeyView {
        key_id,
        public_key,
        signing_algorithm: public_key.algorithm().spec_signing_algorithm(),
        openssh: spec_openssh(public_key, key_id),
    }
}

impl View for CaKey {
    type V = CaKeyView;

    closed spec fn view(&self) -> CaKeyView {
        CaKeyView {
            key_id: self.key_id@,
            public_key: self.public_key@,
            signing_algorithm: self.signing_algorithm,
            openssh: self.openssh@,
        }
    }
}

impl Clone for CaKey {
    fn clone(&self) -> (r: Self)
        ensures
            r@ == self@,
            r@.wf(),
    {
        proof {
            use_type_invariant(self);
        }
        CaKey {
            key_id: self.key_id.clone(),
            public_key: self.public_key.clone(),
            signing_algorithm: self.signing_algorithm,
            openssh: self.openssh.clone(),
        }
    }
}

impl CaKey {
    #[verifier::type_invariant]
    spec fn inv(self) -> bool {
        self@.wf()
    }

    /// The CA key with the given handle and key material. Its signing
    /// algorithm follows from the key's algorithm, its SSH comment is the
    /// handle.
    pub fn new(key_id: String, public_key: PublicKey) -> (key: CaKey)
        ensures
            key@ == spec_ca_key(key_id@, public_key@),
            key@.wf(),
    {
        let signing_algorithm = public_key.algorithm().signing_algorithm();
        let formatted = match &public_key {
            PublicKey::Rsa(k) => format_rsa_public_key(k, key_id.as_str()),
        };
        match formatted {
            Ok(openssh) => CaKey { key_id, public_key, signing_algorithm, openssh },
            // a key of a supported algorithm always has a line
            Err(_) => unreached(),
        }
    }

    /// The handle of the key at the remote service.
    pub fn key_id(&self) -> (id: &str)
        ensures
            id@ == self@.key_id,
    {
        self.key_id.as_str()
    }

    /// The key material.
    pub fn public_key(&self) -> (k: &PublicKey)
        ensures
            k@ == self@.public_key,
    {
        &self.public_key
    }

    /// The algorithm that the remote service is to sign with.
    pub fn signing_algorithm(&self) -> (a: SigningAlgorithm)
        ensures
            a == self@.signing_algorithm,
            self@.wf(),
    {
        proof {
            use_type_invariant(self);
        }
        self.signing_algorithm
    }

    /// The SSH key type of the key.
    pub fn key_type(&self) -> (name: &'static str)
        ensures
            name@ == self@.key_type(),
    {
        self.public_key.algorithm().key_type()
    }

    /// The key as an OpenSSH public key line: key type, key, and the handle
    /// as comment.
    pub fn openssh(&self) -> (line: &str)
        ensures
            line@ == self@.openssh,
            self@.wf(),
    {
        proof {
            use_type_invariant(self);
        }
        self.openssh.as_str()
    }

    /// The line that makes an SSH server trust this CA for certificates of
    /// the principal `user`.
    pub fn trust_line(&self, user: &str) -> (line: String)
        ensures
            line@ == spec_trust_line(user@, self@.openssh),
            is_public_key_line(self@.openssh, self@.key_type(), self@.key_id),
            self@.wf(),
    {
        proof {
            use_type_invariant(self);
        }
        let mut line = String::from_str("cert-authority,principals=\"");
        line.append(user);
        line.append("\" ");
        line.append(self.openssh.as_str());
        line
    }
}

/// The line that makes an SSH server trust, for certificates of the principal
/// `user`, the CA whose OpenSSH public key line is `openssh`.
pub open spec fn spec_trust_line(user: Seq<char>, openssh: Seq<char>) -> Seq<char> {
    "cert-authority,principals=\""@ + user + "\" "@ + openssh
}

/// The trust line of a CA key reads: the option that names the principal, the
/// SSH key type of the key's algorithm, the encoded key, and the key's
/// handle, in this order and set apart by single spaces.
pub proof fn lemma_trust_line(user: Seq<char>, key: CaKeyView)
    requires
        key.wf(),
    ensures
        exists|encoded: Seq<char>|
            spec_trust_line(user, key.openssh) == "cert-authority,principals=\""@ + user + "\" "@
                + #[trigger] public_key_line(
                key.public_key.algorithm().spec_key_type(),
                encoded,
                key.key_id,
            ),
{
    let encoded = choose|encoded: Seq<char>|
        key.openssh == #[trigger] public_key_line(key.key_type(), encoded, key.comment());
    assert(spec_trust_line(user, key.openssh) == "cert-authority,principals=\""@ + user + "\" "@
        + public_key_line(key.public_key.algorithm().spec_key_type(), encoded, key.key_id));
}

/// The public key that is to be certified. Nothing is known of it but its SSH
/// key type, the key type of a certificate for it, its bytes in SSH wire
/// format and its comment.
#[derive(Debug, PartialEq, Eq)]
pub struct SubjectKey {
    key_type: String,
    cert_key_type: String,
    blob: Vec<u8>,
    comment: Option<String>,
}

pub struct SubjectKeyView {
    /// The SSH key type of the key.
    pub key_type: Seq<char>,
    /// The SSH key type of a certificate for the key.
    pub cert_key_type: Seq<char>,
    /// The key in SSH wire format.
    pub blob: Seq<u8>,
    pub comment: Option<Seq<char>>,
}

impl View for SubjectKey {
    type V = SubjectKeyView;

    closed spec fn view(&self) -> SubjectKeyView {
        SubjectKeyView {
            key_type: self.key_type@,
            cert_key_type: self.cert_key_type@,
            blob: self.blob@,
            comment: match self.comment {
                Some(c) => Some(c@),
                None => None,
            },
        }
    }
}

impl Clone for SubjectKey {
    fn clone(&self) -> (r: Self)
        ensures
            r@ == self@,
    {
        SubjectKey {
            key_type: self.key_type.clone(),
            cert_key_type: self.cert_key_type.clone(),
            blob: self.blob.clone(),
            comment: match &self.comment {
                Some(c) => Some(c.clone()),
                None => None,
            },
        }
    }
}

impl SubjectKey {
    /// Reads a key from its OpenSSH public key line.
    pub fn parse(line: &str) -> (r: Result<SubjectKey, InvalidKey>)
        ensures
            match openssh_public_key_decoding(line@) {
                Some(view) => r matches Ok(key) && key@ == view,
                None => r == Err::<SubjectKey, InvalidKey>(InvalidKey),
            },
    {
        match parse_public_key(line) {
            Ok(key) => Ok(key),
            Err(_) => Err(InvalidKey),
        }
    }

    /// The SSH key type.
    pub fn key_type(&self) -> (name: &str)
        ensures
            name@ == self@.key_type,
    {
        self.key_type.as_str()
    }

    /// The SSH key type of a certificate for the key.
    pub fn cert_key_type(&self) -> (name: &str)
        ensures
            name@ == self@.cert_key_type,
    {
        self.cert_key_type.as_str()
    }

    /// The key in SSH wire format.
    pub fn blob(&self) -> (bytes: &[u8])
        ensures
            bytes@ == self@.blob,
    {
        self.blob.as_slice()
    }

    /// The comment that stood beside the key, if one did.
    pub fn comment(&self) -> (comment: Option<&str>)
        ensures
            match comment {
                Some(text) => self@.comment == Some(text@),
                None => self@.comment is None,
            },
    {
        match &self.comment {
            Some(text) => Some(text.as_str()),
            None => None,
        }
    }
}

} // verus!

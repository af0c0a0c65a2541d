//! What can go wrong while a certificate is issued. Every error ends the
//! current attempt: nothing is retried, and nothing partial is kept.

use vstd::prelude::*;
use vstd::string::StringExecFns;

verus! {

/// The broad class of a failure.
#[derive(Clone, Copy, Debug, PartialEq, Eq, Structural)]
pub enum ErrorKind {
    /// A required identifying input could not be resolved.
    Configuration,
    /// The remote service could not be reached, or its response was malformed.
    RemoteService,
    /// The CA key is of an algorithm that is not supported.
    UnsupportedAlgorithm,
    /// Key material was not well-formed.
    Encoding,
    /// The current time cannot be written as a timestamp.
    Clock,
    /// The remote service did not sign.
    SigningFailure,
}

/// An input that a run needs and did not get.
#[derive(Clone, Copy, Debug, PartialEq, Eq, Structural)]
pub enum ConfigError {
    /// No principal was named, and the user who runs the program is unknown.
    MissingUser,
    /// The identifier of the CA key was not given.
    MissingKeyId,
    /// Neither the path of the public key nor a home directory was given.
    MissingKeyPath,
    /// The command is none of those that the program knows.
    InvalidCommand,
    /// The name of the public key file does not show where the certificate
    /// goes.
    NoOutputPath,
}

/// A field that the response to a public key request must hold.
#[derive(Clone, Copy, Debug, PartialEq, Eq, Structural)]
pub enum MissingField {
    KeyId,
    PublicKey,
}

/// A call to the remote service that did not come back with a response.
#[derive(Clone, Debug, PartialEq, Eq)]
pub struct ServiceError {
    /// What the transport said of it.
    pub message: String,
}

/// Why the CA key could not be resolved.
#[derive(Clone, Debug, PartialEq, Eq)]
pub enum RemoteKeyError {
    /// The request itself failed.
    Service(ServiceError),
    /// The response lacks a field.
    MissingField(MissingField),
    /// The key material in the response is not well-formed DER.
    Encoding,
    /// The key is of an algorithm other than the supported ones.
    UnsupportedAlgorithm,
}

/// A public key line that is not an OpenSSH public key.
#[derive(Clone, Copy, Debug, PartialEq, Eq, Structural)]
pub struct InvalidKey;

/// The remote service did not sign: the call failed, was rejected, or came
/// back without a signature.
#[derive(Clone, Copy, Debug, PartialEq, Eq, Structural)]
pub struct SigningFailure;

/// Why no certificate was made.
#[derive(Clone, Copy, Debug, PartialEq, Eq, Structural)]
pub enum CertError {
    /// The current time lies before the epoch.
    Clock,
    /// The certificate could not be encoded for signing, or what was encoded
    /// and signed does not hold what was drafted.
    Encoding,
    /// No signature was obtained.
    Signing(SigningFailure),
    /// The signature obtained is not the CA key's signature of the
    /// certificate.
    InvalidSignature,
}

/// Why a run ended without what it was asked for.
#[derive(Clone, Debug, PartialEq, Eq)]
pub enum RunError {
    Configuration(ConfigError),
    Key(RemoteKeyError),
    Subject(InvalidKey),
    Certificate(CertError),
}

impl ConfigError {
    pub open spec fn spec_message(self) -> Seq<char> {
        match self {
            ConfigError::MissingUser => "$SSHCA_USER and $USER not set"@,
            ConfigError::MissingKeyId => "$SSHCA_KEY_ID not set"@,
            ConfigError::MissingKeyPath => "$SSHCA_KEY_PATH and $HOME not set"@,
            ConfigError::InvalidCommand => "invalid command"@,
            ConfigError::NoOutputPath => "could not automatically determine output path"@,
        }
    }

    /// The error in words.
    pub fn message(&self) -> (text: &'static str)
        ensures
            text@ == self.spec_message(),
    {
        match self {
            ConfigError::MissingUser => "$SSHCA_USER and $USER not set",
            ConfigError::MissingKeyId => "$SSHCA_KEY_ID not set",
            ConfigError::MissingKeyPath => "$SSHCA_KEY_PATH and $HOME not set",
            ConfigError::InvalidCommand => "invalid command",
            ConfigError::NoOutputPath => "could not automatically determine output path",
        }
    }
}

impl RemoteKeyError {
    pub open spec fn spec_kind(self) -> ErrorKind {
        match self {
            RemoteKeyError::Service(_) => ErrorKind::RemoteService,
            RemoteKeyError::MissingField(_) => ErrorKind::RemoteService,
            RemoteKeyError::Encoding => ErrorKind::Encoding,
            RemoteKeyError::UnsupportedAlgorithm => ErrorKind::UnsupportedAlgorithm,
        }
    }

    pub open spec fn spec_message(self) -> Seq<char> {
        match self {
            RemoteKeyError::Service(e) => e.message@,
            RemoteKeyError::MissingField(MissingField::KeyId) => "GetPublicKey response missing `key_id` field"@,
            RemoteKeyError::MissingField(MissingField::PublicKey) => "GetPublicKey response missing `public_key` field"@,
            RemoteKeyError::Encoding => "malformed public key"@,
            RemoteKeyError::UnsupportedAlgorithm => "unsupported key algorithm"@,
        }
    }

    /// The class this error falls under.
    pub fn kind(&self) -> (k: ErrorKind)
        ensures
            k == self.spec_kind(),
    {
        match self {
            RemoteKeyError::Service(_) => ErrorKind::RemoteService,
            RemoteKeyError::MissingField(_) => ErrorKind::RemoteService,
            RemoteKeyError::Encoding => ErrorKind::Encoding,
            RemoteKeyError::UnsupportedAlgorithm => ErrorKind::UnsupportedAlgorithm,
        }
    }

    /// The error in words.
    pub fn message(&self) -> (text: String)
        ensures
            text@ == self.spec_message(),
    {
        match self {
            RemoteKeyError::Service(e) => e.message.clone(),
            RemoteKeyError::MissingField(MissingField::KeyId) => String::from_str(
                "GetPublicKey response missing `key_id` field",
            ),
            RemoteKeyError::MissingField(MissingField::PublicKey) => String::from_str(
                "GetPublicKey response missing `public_key` field",
            ),
            RemoteKeyError::Encoding => String::from_str("malformed public key"),
            RemoteKeyError::UnsupportedAlgorithm => String::from_str("unsupported key algorithm"),
        }
    }
}

impl InvalidKey {
    pub open spec fn spec_message(self) -> Seq<char> {
        "failed to load public key"@
    }

    /// The error in words.
    pub fn message(&self) -> (text: &'static str)
        ensures
            text@ == self.spec_message(),
    {
        "failed to load public key"
    }
}

impl CertError {
    pub open spec fn spec_kind(self) -> ErrorKind {
        match self {
            CertError::Clock => ErrorKind::Clock,
            CertError::Encoding => ErrorKind::Encoding,
            CertError::Signing(_) => ErrorKind::SigningFailure,
            CertError::InvalidSignature => ErrorKind::SigningFailure,
        }
    }

    pub open spec fn spec_message(self) -> Seq<char> {
        match self {
            CertError::Clock => "it is not yet 1970"@,
            CertError::Encoding => "could not encode the certificate"@,
            CertError::Signing(_) => "could not sign data"@,
            CertError::InvalidSignature => "data is improperly signed"@,
        }
    }

    /// The class this error falls under.
    pub fn kind(&self) -> (k: ErrorKind)
        ensures
            k == self.spec_kind(),
    {
        match self {
            CertError::Clock => ErrorKind::Clock,
            CertError::Encoding => ErrorKind::Encoding,
            CertError::Signing(_) => ErrorKind::SigningFailure,
            CertError::InvalidSignature => ErrorKind::SigningFailure,
        }
    }

    /// The error in words.
    pub fn message(&self) -> (text: &'static str)
        ensures
            text@ == self.spec_message(),
    {
        match self {
            CertError::Clock => "it is not yet 1970",
            CertError::Encoding => "could not encode the certificate",
            CertError::Signing(_) => "could not sign data",
            CertError::InvalidSignature => "data is improperly signed",
        }
    }
}

impl RunError {
    pub open spec fn spec_kind(self) -> ErrorKind {
        match self {
            RunError::Configuration(_) => ErrorKind::Configuration,
            RunError::Key(e) => e.spec_kind(),
            RunError::Subject(_) => ErrorKind::Encoding,
            RunError::Certificate(e) => e.spec_kind(),
        }
    }

    pub open spec fn spec_message(self) -> Seq<char> {
        match self {
            RunError::Configuration(e) => e.spec_message(),
            RunError::Key(e) => e.spec_message(),
            RunError::Subject(e) => e.spec_message(),
            RunError::Certificate(e) => e.spec_message(),
        }
    }

    /// The class this error falls under.
    pub fn kind(&self) -> (k: ErrorKind)
        ensures
            k == self.spec_kind(),
    {
        match self {
            RunError::Configuration(_) => ErrorKind::Configuration,
            RunError::Key(e) => e.kind(),
            RunError::Subject(_) => ErrorKind::Encoding,
            RunError::Certificate(e) => e.kind(),
        }
    }

    /// The error in words.
    pub fn message(&self) -> (text: String)
        ensures
            text@ == self.spec_message(),
    {
        match self {
            RunError::Configuration(e) => String::from_str(e.message()),
            RunError::Key(e) => e.message(),
            RunError::Subject(e) => String::from_str(e.message()),
            RunError::Certificate(e) => String::from_str(e.message()),
        }
    }
}

} // verus!

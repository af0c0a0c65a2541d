//! Issuance of short-lived SSH user certificates whose signing key is held by
//! a remote key-management service. The private half of the CA key never
//! enters this process: the service hands out the public half and signs what
//! it is sent.
//!
//! A run goes through these modules, in this order:
//!
//! - [`config`] works out what the run is asked to do;
//! - [`resolver`] makes the CA key ([`key`]) out of the service's answer to a
//!   public key request, which [`asn1`] decodes;
//! - [`cert`] drafts the certificate that policy fixes and encodes it;
//! - [`signer`] has the service sign the encoding and puts the signature into
//!   an SSH signature envelope ([`envelope`]);
//! - [`cert`] completes the certificate with the envelope;
//! - [`path`] names the file that the certificate goes to.
//!
//! [`issue`] strings the steps together, [`service`] says what is asked of
//! the remote service, and [`error`] holds what can go wrong.
//!
//! The service, the SSH formats and DER are the work of other crates. What
//! is taken on trust of them is stated where they are called; everything
//! else is proved.

pub mod asn1;
pub mod cert;
pub mod config;
pub mod envelope;
pub mod error;
pub mod issue;
pub mod key;
pub mod path;
pub mod resolver;
pub mod service;
pub mod signer;

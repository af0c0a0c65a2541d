//! Where a certificate goes: beside the public key it certifies, under a name
//! made from the key's.

use crate::config::str_of;
use crate::error::ConfigError;
use vstd::prelude::*;
use vstd::string::{StrSliceExecFns, StringExecFns};

verus! {

/// The file name of the certificate for the public key file called `name`:
/// `-cert.pub` in place of a trailing `.pub`. There is none where `name`
/// does not end in `.pub`.
pub open spec fn spec_cert_file_name(name: Seq<char>) -> Option<Seq<char>> {
    if name.len() >= 4 && name.subrange(name.len() - 4, name.len() as int) == ".pub"@ {
        Some(name.subrange(0, name.len() - 4) + "-cert.pub"@)
    } else {
        None
    }
}

/// The file name of the certificate for a public key of which the path has
/// the final component `file_name`, if it has one.
pub open spec fn spec_certificate_name(file_name: Option<Seq<char>>) -> Option<Seq<char>> {
    match file_name {
        Some(name) => spec_cert_file_name(name),
        None => None,
    }
}

/// A key file called `stem` with `.pub` behind it gets a certificate called
/// `stem` with `-cert.pub` behind it, whatever `stem` is.
pub proof fn lemma_cert_file_name(stem: Seq<char>)
    ensures
        spec_cert_file_name(stem + ".pub"@) == Some(stem + "-cert.pub"@),
{
    reveal_strlit(".pub");
    let name = stem + ".pub"@;
    assert(name.subrange(name.len() - 4, name.len() as int) =~= ".pub"@);
    assert(name.subrange(0, name.len() - 4) =~= stem);
}

/// A certificate is itself a `.pub` file, five characters longer in name
/// than the key it is for.
pub proof fn lemma_cert_file_name_len(name: Seq<char>)
    requires
        spec_cert_file_name(name) is Some,
    ensures
        spec_cert_file_name(name).unwrap().len() == name.len() + 5,
        spec_cert_file_name(spec_cert_file_name(name).unwrap()) is Some,
{
    reveal_strlit(".pub");
    reveal_strlit("-cert.pub");
    let cert = spec_cert_file_name(name).unwrap();
    assert(cert.len() == name.len() + 5);
    assert(cert.subrange(cert.len() - 4, cert.len() as int) =~= ".pub"@);
}

/// Derives the file name of the certificate from that of the public key.
pub fn cert_file_name(name: &str) -> (r: Option<String>)
    ensures
        match spec_cert_file_name(name@) {
            Some(cert) => r matches Some(out) && out@ == cert,
            None => r is None,
        },
{
    proof {
        reveal_strlit(".pub");
    }
    let len: usize = name.unicode_len();
    if len < 4 {
        return None;
    }
    let ghost tail = name@.subrange(len - 4, len as int);
    if name.get_char(len - 4) != '.' || name.get_char(len - 3) != 'p' || name.get_char(len - 2)
        != 'u' || name.get_char(len - 1) != 'b' {
        assert(tail[0] == name@[len - 4]);
        assert(tail[1] == name@[len - 3]);
        assert(tail[2] == name@[len - 2]);
        assert(tail[3] == name@[len - 1]);
        return None;
    }
    assert(tail =~= ".pub"@);
    let mut out = String::from_str(name.substring_char(0, len - 4));
    out.append("-cert.pub");
    Some(out)
}

/// Names the certificate after the final component of the public key's path.
/// A path without one, or with one that does not end in `.pub`, does not
/// show where the certificate goes.
pub fn certificate_name(file_name: Option<&str>) -> (r: Result<String, ConfigError>)
    ensures
        match spec_certificate_name(str_of(file_name)) {
            Some(cert) => r matches Ok(out) && out@ == cert,
            None => r == Err::<String, ConfigError>(ConfigError::NoOutputPath),
        },
{
    let name = match file_name {
        Some(name) => name,
        None => {
            return Err(ConfigError::NoOutputPath);
        },
    };
    match cert_file_name(name) {
        Some(out) => Ok(out),
        None => Err(ConfigError::NoOutputPath),
    }
}

} // verus!

//! What a run is asked to do, worked out from the values that the
//! environment and the command line gave. Reading them is the caller's part.

use crate::asn1::same_bytes;
use crate::error::ConfigError;
use vstd::prelude::*;

verus! {

/// What a run does once the CA key is resolved.
#[derive(Clone, Copy, Debug, PartialEq, Eq, Structural)]
pub enum Command {
    /// Print the line that makes a server trust the CA.
    Pubkey,
    /// Issue a certificate.
    Sign,
}

/// Where the public key that is to be certified lies.
#[derive(Debug, PartialEq, Eq)]
pub enum KeyLocation {
    /// At the path that was given.
    Explicit(String),
    /// At the usual place below the home directory that was given.
    Default(String),
}

/// The command that an argument names, if it names one.
pub open spec fn spec_parse_command(argument: Option<Seq<char>>) -> Option<Command> {
    match argument {
        Some(word) => if word == "pubkey"@ {
            Some(Command::Pubkey)
        } else if word == "sign"@ {
            Some(Command::Sign)
        } else {
            None
        },
        None => None,
    }
}

/// The view of an optional text.
pub open spec fn text_of(value: Option<String>) -> Option<Seq<char>> {
    match value {
        Some(text) => Some(text@),
        None => None,
    }
}

/// The view of an optional borrowed text.
pub open spec fn str_of(value: Option<&str>) -> Option<Seq<char>> {
    match value {
        Some(text) => Some(text@),
        None => None,
    }
}

/// Whether two texts are the same.
pub fn same_text(a: &str, b: &str) -> (same: bool)
    ensures
        same == (a@ == b@),
{
    proof {
        vstd::utf8::encode_utf8_decode_utf8(a@);
        vstd::utf8::encode_utf8_decode_utf8(b@);
    }
    same_bytes(a.as_bytes(), b.as_bytes())
}

/// Reads the command from the first argument.
pub fn parse_command(argument: Option<&str>) -> (r: Result<Command, ConfigError>)
    ensures
        match spec_parse_command(str_of(argument)) {
            Some(command) => r == Ok::<Command, ConfigError>(command),
            None => r == Err::<Command, ConfigError>(ConfigError::InvalidCommand),
        },
{
    proof {
        reveal_strlit("pubkey");
        reveal_strlit("sign");
    }
    match argument {
        Some(word) => {
            if same_text(word, "pubkey") {
                Ok(Command::Pubkey)
            } else if same_text(word, "sign") {
                Ok(Command::Sign)
            } else {
                Err(ConfigError::InvalidCommand)
            }
        },
        None => Err(ConfigError::InvalidCommand),
    }
}

/// The principal to issue for: the user named for this purpose, else the
/// user who runs the program.
pub fn select_user(named: Option<String>, login: Option<String>) -> (r: Result<String, ConfigError>)
    ensures
        match (named, login) {
            (Some(user), _) => r == Ok::<String, ConfigError>(user),
            (None, Some(user)) => r == Ok::<String, ConfigError>(user),
            (None, None) => r == Err::<String, ConfigError>(ConfigError::MissingUser),
        },
{
    match named {
        Some(user) => Ok(user),
        None => match login {
            Some(user) => Ok(user),
            None => Err(ConfigError::MissingUser),
        },
    }
}

/// The identifier of the CA key, which must be given.
pub fn require_key_id(key_id: Option<String>) -> (r: Result<String, ConfigError>)
    ensures
        match key_id {
            Some(id) => r == Ok::<String, ConfigError>(id),
            None => r == Err::<String, ConfigError>(ConfigError::MissingKeyId),
        },
{
    match key_id {
        Some(id) => Ok(id),
        None => Err(ConfigError::MissingKeyId),
    }
}

/// The time in whole seconds from the epoch that a clock reading stands
/// for. A reading is a distance from the epoch in seconds and the side of the
/// epoch on which it lies. A time before the epoch is negative, by one second
/// at the least; a distance beyond what the result can hold counts as the
/// farthest that it can.
pub open spec fn spec_timestamp(before_epoch: bool, seconds: u64) -> int {
    let distance = if seconds <= i64::MAX {
        seconds as int
    } else {
        i64::MAX as int
    };
    if !before_epoch {
        distance
    } else if distance == 0 {
        -1
    } else {
        -distance
    }
}

/// Turns a clock reading into seconds from the epoch. What lies before the
/// epoch comes out negative, so that no certificate is issued for it.
pub fn timestamp(before_epoch: bool, seconds: u64) -> (now: i64)
    ensures
        now == spec_timestamp(before_epoch, seconds),
        before_epoch ==> now < 0,
        !before_epoch ==> now >= 0,
        !before_epoch && seconds <= i64::MAX ==> now == seconds,
{
    let distance: i64 = if seconds <= 0x7fff_ffff_ffff_ffff {
        seconds as i64
    } else {
        0x7fff_ffff_ffff_ffff
    };
    if !before_epoch {
        distance
    } else if distance == 0 {
        -1
    } else {
        -distance
    }
}

/// Where the public key lies: at the path given, else at the usual place
/// below the home directory.
pub fn locate_key(path: Option<String>, home: Option<String>) -> (r: Result<KeyLocation, ConfigError>)
    ensures
        match (path, home) {
            (Some(p), _) => r == Ok::<KeyLocation, ConfigError>(KeyLocation::Explicit(p)),
            (None, Some(h)) => r == Ok::<KeyLocation, ConfigError>(KeyLocation::Default(h)),
            (None, None) => r == Err::<KeyLocation, ConfigError>(ConfigError::MissingKeyPath),
        },
{
    match path {
        Some(p) => Ok(KeyLocation::Explicit(p)),
        None => match home {
            Some(h) => Ok(KeyLocation::Default(h)),
            None => Err(ConfigError::MissingKeyPath),
        },
    }
}

} // verus!

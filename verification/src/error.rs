//! What can be wrong with a configuration.

use vstd::prelude::*;
use vstd::string::*;

verus! {

/// Why a rewriter could not be set up. Both are found before any line is
/// looked at; a line itself never gives rise to an error.
#[derive(Clone, Copy, Debug, PartialEq, Eq, Structural)]
pub enum ConfigError {
    /// The destination is not the name of a time zone in the IANA database.
    UnknownTimezone,
    /// The format cannot serve to find, read and write a timestamp: a `%` in
    /// it starts no directive this crate knows, one of its directives can
    /// only be read, or the expression derived from it does not compile.
    MalformedFormat,
}

impl ConfigError {
    /// A sentence for the user.
    pub fn message(&self) -> (text: String)
        ensures
            text@ == match *self {
                ConfigError::UnknownTimezone => "unknown time zone"@,
                ConfigError::MalformedFormat => "malformed timestamp format"@,
            },
    {
        match self {
            ConfigError::UnknownTimezone => String::from_str("unknown time zone"),
            ConfigError::MalformedFormat => String::from_str("malformed timestamp format"),
        }
    }
}

} // verus!

//! The crate-wide error type.

use vstd::prelude::*;
use vstd::string::StringExecFns;

verus! {

/// Crate-wide error type.
///
/// Any fallible operation of this library reports its failure through this
/// enum.
#[derive(Debug, Clone, PartialEq, Eq, Hash)]
pub enum Error {
    /// The config descriptor holds a string that the config file format
    /// cannot encode.
    SerializeConfig(String),
    /// Persisting the rendered config file to disk failed.
    SaveConfig(String),
    /// The game client's config folder could not be located.
    NoCfgDir,
    /// An event carried no player information where one was required.
    NoPlayer,
    /// The HTTP listener could not be started.
    Axum,
}

/// The human-readable text describing an [`Error`].
pub open spec fn spec_message(e: Error) -> Seq<char> {
    match e {
        Error::SerializeConfig(why) => "Failed to serialize config file: "@ + why@,
        Error::SaveConfig(why) => "Failed to save config file to disk: "@ + why@,
        Error::NoCfgDir => "Failed to find the game's config folder"@,
        Error::NoPlayer => "Event did not contain any player information"@,
        Error::Axum => "Failed to run the HTTP listener"@,
    }
}

impl Error {
    /// A human-readable description of the error.
    pub fn message(&self) -> (msg: String)
        ensures
            msg@ == spec_message(*self),
    {
        match self {
            Error::SerializeConfig(why) => {
                let mut msg = String::new();
                msg.append("Failed to serialize config file: ");
                msg.append(why.as_str());
                msg
            },
            Error::SaveConfig(why) => {
                let mut msg = String::new();
                msg.append("Failed to save config file to disk: ");
                msg.append(why.as_str());
                msg
            },
            Error::NoCfgDir => {
                let mut msg = String::new();
                msg.append("Failed to find the game's config folder");
                msg
            },
            Error::NoPlayer => {
                let mut msg = String::new();
                msg.append("Event did not contain any player information");
                msg
            },
            Error::Axum => {
                let mut msg = String::new();
                msg.append("Failed to run the HTTP listener");
                msg
            },
        }
    }
}

} // verus!

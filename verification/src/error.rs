//! Why a run of the tool is refused.

use vstd::prelude::*;

verus! {

/// A fatal condition. Each aborts the operation it is found in before that
/// operation has touched a file or started a transfer.
#[derive(Clone, Copy, Debug, PartialEq, Eq, Structural)]
pub enum Error {
    /// `--all` was combined with an explicit source directory.
    SourceWithAll,
    /// A configuration file exists but could not be understood.
    MalformedConfig,
    /// The port is not a decimal number that fits 32 bits, or it is zero.
    InvalidPort,
    /// Neither the command line nor the directory's configuration names a command.
    NoCommand,
    /// The fetch direction is reserved and has no implementation.
    FetchUnimplemented,
    /// No server address was given by any layer.
    MissingServer,
    /// No remote user was given by any layer.
    MissingUser,
    /// The transfer program could not be started or ended with a failure status.
    TransferFailed,
}

impl Error {
    /// The text shown to the operator for this error.
    pub open spec fn message_text(self) -> Seq<char> {
        match self {
            Error::SourceWithAll => "Can't specify a source directory when --all is used."@,
            Error::MalformedConfig => "Failed to read config file."@,
            Error::InvalidPort => "Must specify a valid port."@,
            Error::NoCommand => "No command to run."@,
            Error::FetchUnimplemented => "The fetch command is not implemented."@,
            Error::MissingServer => "Must specify a server."@,
            Error::MissingUser => "Must specify a user."@,
            Error::TransferFailed => "Failed to execute the command."@,
        }
    }

    /// The text shown to the operator for this error.
    pub fn message(&self) -> (r: String)
        ensures
            r@ == self.message_text(),
    {
        let text: &str = match self {
            Error::SourceWithAll => "Can't specify a source directory when --all is used.",
            Error::MalformedConfig => "Failed to read config file.",
            Error::InvalidPort => "Must specify a valid port.",
            Error::NoCommand => "No command to run.",
            Error::FetchUnimplemented => "The fetch command is not implemented.",
            Error::MissingServer => "Must specify a server.",
            Error::MissingUser => "Must specify a user.",
            Error::TransferFailed => "Failed to execute the command.",
        };
        String::from_str(text)
    }
}

} // verus!

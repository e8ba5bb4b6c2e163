//! The errors of the rargo client, with the message and exit code of each.
use vstd::prelude::*;
use vstd::string::*;

verus! {

/// What can go wrong in the rargo client.
#[derive(Debug, Clone, PartialEq, Eq)]
pub enum CliError {
    Connect,
    Io,
    Protocol,
    Disconnected,
    InvalidPath(String),
    NoToml,
    InvalidToml(String),
    NoCwd,
    CargoNotFound,
    NoSavedToken,
    NoHome,
    WriteToken,
    ReadStdin,
    EmptyToken,
    InvalidToken,
    NoMetaData,
    WriteFail,
}

/// The message printed for an error.
pub open spec fn spec_message(e: CliError) -> Seq<char> {
    match e {
        CliError::Connect => "Failed to connect to the broker."@,
        CliError::Io => "Broker IO Error."@,
        CliError::Protocol => "Invalid response from broker."@,
        CliError::Disconnected => "Broker closed connection before action finished"@,
        CliError::InvalidPath(p) => "invalid path: "@ + p@,
        CliError::NoToml => "Cannot read rargo.toml"@,
        CliError::InvalidToml(p) => "invalid toml: "@ + p@,
        CliError::NoCwd => "Cannot determine current directory."@,
        CliError::CargoNotFound => "Cargo not found"@,
        CliError::NoSavedToken => "Not logged in, run `rargo auth` first"@,
        CliError::NoHome => "No HOME or USERPROFILE set"@,
        CliError::WriteToken => "Could not write credentials file"@,
        CliError::ReadStdin => "Failed to read token from stdin"@,
        CliError::EmptyToken => "No token was entered"@,
        CliError::InvalidToken => "Token must start with `rargo_`"@,
        CliError::NoMetaData => "The workspace manifest has no [workspace.metadata.rargo] table"@,
        CliError::WriteFail => "Write fail"@,
    }
}

/// The status the process exits with for an error: 127 when cargo cannot be
/// found, the failure status 1 otherwise.
pub open spec fn spec_exit_code(e: CliError) -> u8 {
    match e {
        CliError::CargoNotFound => 127,
        _ => 1,
    }
}

/// No error ends the process with the success status.
pub proof fn lemma_errors_exit_nonzero(e: CliError)
    ensures
        spec_exit_code(e) != 0,
{
}

impl CliError {
    /// The message printed for this error.
    pub fn message(&self) -> (s: String)
        ensures
            s@ == spec_message(*self),
    {
        match self {
            CliError::Connect => String::from_str("Failed to connect to the broker."),
            CliError::Io => String::from_str("Broker IO Error."),
            CliError::Protocol => String::from_str("Invalid response from broker."),
            CliError::Disconnected => String::from_str(
                "Broker closed connection before action finished",
            ),
            CliError::InvalidPath(p) => {
                let mut s = String::from_str("invalid path: ");
                s.append(p.as_str());
                s
            },
            CliError::NoToml => String::from_str("Cannot read rargo.toml"),
            CliError::InvalidToml(p) => {
                let mut s = String::from_str("invalid toml: ");
                s.append(p.as_str());
                s
            },
            CliError::NoCwd => String::from_str("Cannot determine current directory."),
            CliError::CargoNotFound => String::from_str("Cargo not found"),
            CliError::NoSavedToken => String::from_str("Not logged in, run `rargo auth` first"),
            CliError::NoHome => String::from_str("No HOME or USERPROFILE set"),
            CliError::WriteToken => String::from_str("Could not write credentials file"),
            CliError::ReadStdin => String::from_str("Failed to read token from stdin"),
            CliError::EmptyToken => String::from_str("No token was entered"),
            CliError::InvalidToken => String::from_str("Token must start with `rargo_`"),
            CliError::NoMetaData => String::from_str(
                "The workspace manifest has no [workspace.metadata.rargo] table",
            ),
            CliError::WriteFail => String::from_str("Write fail"),
        }
    }

    /// The status the process exits with for this error.
    pub fn exit_code(&self) -> (c: u8)
        ensures
            c == spec_exit_code(*self),
    {
        match self {
            CliError::CargoNotFound => 127,
            _ => 1,
        }
    }
}

} // verus!

//! What a run of the program does, from its arguments and the credential file.

use vstd::prelude::*;

use crate::credentials::{parse_credentials, spec_parse, Credentials};
use crate::failure::Failure;

verus! {

/// What one run of the program does, decided from its arguments alone.
#[derive(Debug, PartialEq, Eq)]
pub enum Plan {
    /// Only make sure the application is not running; touch no credential file.
    Stop,
    /// Store these credentials in the credential file, then connect with them.
    Store(Credentials),
    /// Load the credentials from the credential file, then connect.
    Load,
}

/// What reading the credential file gave.
#[derive(Debug, PartialEq, Eq)]
pub enum FileRead {
    /// The file's whole text.
    Contents(String),
    /// There is no credential file.
    Missing,
    /// The file exists but could not be read (the reason).
    Unreadable(String),
}

/// Decides what to do: a stop request ignores any credential arguments; a
/// username and a password together are stored and used; otherwise the file
/// is read.
pub fn plan(stop: bool, username: Option<String>, password: Option<String>) -> (r: Plan)
    ensures
        stop ==> r == Plan::Stop,
        !stop && username is Some && password is Some ==> r == Plan::Store(
            Credentials { username: username->0, password: password->0 },
        ),
        !stop && !(username is Some && password is Some) ==> r == Plan::Load,
{
    if stop {
        return Plan::Stop;
    }
    match (username, password) {
        (Some(username), Some(password)) => Plan::Store(Credentials { username, password }),
        _ => Plan::Load,
    }
}

/// The credentials that the file gives, or why there are none: an unreadable
/// file is a file error, a missing file or one with fewer than two lines means
/// that credentials are missing.
pub fn credentials_from_file(read: FileRead) -> (r: Result<Credentials, Failure>)
    ensures
        match read {
            FileRead::Contents(text) => match spec_parse(text@) {
                Some((u, p)) => r is Ok && r->Ok_0.username@ == u && r->Ok_0.password@ == p,
                None => r == Err::<Credentials, Failure>(Failure::CredentialsMissing),
            },
            FileRead::Missing => r == Err::<Credentials, Failure>(Failure::CredentialsMissing),
            FileRead::Unreadable(why) => r == Err::<Credentials, Failure>(
                Failure::CredentialFileError(why),
            ),
        },
{
    match read {
        FileRead::Contents(text) => match parse_credentials(text.as_str()) {
            Some(creds) => Ok(creds),
            None => Err(Failure::CredentialsMissing),
        },
        FileRead::Missing => Err(Failure::CredentialsMissing),
        FileRead::Unreadable(why) => Err(Failure::CredentialFileError(why)),
    }
}

} // verus!

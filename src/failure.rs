//! The reasons for which an attempt or a stop request fails.

use vstd::prelude::*;

verus! {

/// Every way a connection attempt or a stop request can end badly.
#[derive(Debug, PartialEq, Eq)]
pub enum Failure {
    /// The scripting interpreter could not be started.
    SpawnError(String),
    /// The interpreter ran, but the script raised an error (its stderr).
    ScriptError(String),
    /// The target application is not installed.
    NotInstalled,
    /// Making sure the application was not running failed (the failure underneath).
    ReconcileError(Box<Failure>),
    /// The application could not be activated (the failure underneath).
    ActivationError(Box<Failure>),
    /// The application's main window did not appear in time.
    LaunchTimeout,
    /// The login window did not appear in time.
    LoginScreenTimeout,
    /// The login window could not be brought to the front (the failure underneath).
    FocusError(Box<Failure>),
    /// The login window did not close in time.
    SsoTimeout,
    /// Neither the arguments nor the credential file gave credentials.
    CredentialsMissing,
    /// The credential file exists but could not be read or written.
    CredentialFileError(String),
}

impl Failure {
    /// A copy of this failure.
    pub fn duplicate(&self) -> (r: Failure)
        ensures
            r == *self,
        decreases self,
    {
        match self {
            Failure::SpawnError(m) => Failure::SpawnError(m.clone()),
            Failure::ScriptError(m) => Failure::ScriptError(m.clone()),
            Failure::NotInstalled => Failure::NotInstalled,
            Failure::ReconcileError(f) => Failure::ReconcileError(Box::new(f.duplicate())),
            Failure::ActivationError(f) => Failure::ActivationError(Box::new(f.duplicate())),
            Failure::LaunchTimeout => Failure::LaunchTimeout,
            Failure::LoginScreenTimeout => Failure::LoginScreenTimeout,
            Failure::FocusError(f) => Failure::FocusError(Box::new(f.duplicate())),
            Failure::SsoTimeout => Failure::SsoTimeout,
            Failure::CredentialsMissing => Failure::CredentialsMissing,
            Failure::CredentialFileError(m) => Failure::CredentialFileError(m.clone()),
        }
    }
}

} // verus!

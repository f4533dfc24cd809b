use vstd::prelude::*;

verus! {

/// The failures that the library reports.
#[derive(Debug, Clone, PartialEq, Eq)]
pub enum TelecheckerError {
    /// The service's application id and secret were never supplied.
    MissingCredentials,
    /// The phone number given to sign in with was rejected by the validator.
    InvalidPhoneFormat,
    /// A credential slot was empty: consumed already, or its sender went away.
    RetrievalFailed,
    /// The service refused the code or the password; its message is kept.
    SignInRejected(String),
    /// An entry of a phone batch failed validation; nothing was imported.
    MalformedBatch,
    /// The call that removes the imported contacts failed.
    DeletionFailed(String),
    /// Any other failure of the directory service; its message is kept.
    ServiceFailed(String),
    /// An event arrived that the current state does not expect.
    UnexpectedEvent,
}

} // verus!

//! Errors reported by the library.
use vstd::prelude::*;

verus! {

/// Failures that stop a query or a secret load from completing.
#[derive(Debug)]
pub enum NonoError {
    /// An environment value needed for the operation is missing or untrustworthy.
    EnvVarValidation { var: String, reason: String },
    /// The credential store could not be used.
    KeystoreAccess(String),
    /// The credential store holds no secret for the named account.
    SecretNotFound(String),
}

} // verus!

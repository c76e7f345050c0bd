use vstd::prelude::*;

verus! {

/// The error kinds that the credential core reports to its caller.
#[derive(Debug, Clone, Copy, PartialEq, Eq, Structural)]
pub enum Error {
    /// A request field is empty, oversized or malformed.
    InvalidParams,
    /// The secure boundary could not produce a usable key pair.
    KeyGenerationFailure,
    /// The selector names no registered credential.
    CredentialNotFound,
    /// A credential with the same id is already registered.
    DuplicateId,
    /// The secure boundary refused to sign with the key handle.
    SigningFailure,
    /// The secure boundary could not be reached.
    PlatformUnavailable,
    /// The secure boundary no longer knows the key handle.
    KeyNotFound,
}

/// Why the secure boundary did not return a signature.
#[derive(Debug, Clone, Copy, PartialEq, Eq, Structural)]
pub enum SignFailure {
    /// The handle is invalid or revoked, or the platform declined to sign.
    Refused,
    /// The device is locked, the prompt was declined or the hardware failed.
    Unavailable,
    /// The handle is stale: the boundary holds no key for it.
    UnknownHandle,
}

/// The error that the core reports for a failed signing call.
pub open spec fn sign_failure_error(f: SignFailure) -> Error {
    match f {
        SignFailure::Refused => Error::SigningFailure,
        SignFailure::Unavailable => Error::PlatformUnavailable,
        SignFailure::UnknownHandle => Error::KeyNotFound,
    }
}

impl SignFailure {
    /// The error kind that this failure is reported as.
    pub fn to_error(self) -> (r: Error)
        ensures
            r == sign_failure_error(self),
    {
        match self {
            SignFailure::Refused => Error::SigningFailure,
            SignFailure::Unavailable => Error::PlatformUnavailable,
            SignFailure::UnknownHandle => Error::KeyNotFound,
        }
    }
}

/// The result type of the credential operations.
pub type Result<T> = core::result::Result<T, Error>;

} // verus!

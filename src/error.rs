//! The errors that the trust anchor reports to its callers.

use vstd::prelude::*;

use crate::entropy::EntropyError;
use crate::fsm::FsmError;

verus! {

/// The errors of the trust anchor and its capabilities.
#[derive(Debug, PartialEq, Eq, Structural)]
pub enum CryptoError {
    /// The anchor was tampered with, holds no key, or the capability belongs
    /// to another anchor.
    InvalidState,
    /// The policy refused the request.
    AuthorizationFailed,
    /// The lifecycle event is not allowed in the key's current state.
    FsmInvalidTransition,
    /// The key's usage budget is exhausted.
    FsmUsageExceeded,
    /// The primary entropy source failed a health test.
    EntropyHealthCheckFailed,
    /// The ciphertext is malformed or failed authentication.
    DecryptionFailed,
}

/// The error that an entropy failure is reported as.
pub open spec fn crypto_error_of(e: EntropyError) -> CryptoError {
    match e {
        EntropyError::RepetitionCheckFailed => CryptoError::EntropyHealthCheckFailed,
        EntropyError::ProportionCheckFailed => CryptoError::EntropyHealthCheckFailed,
        EntropyError::NoSources => CryptoError::InvalidState,
    }
}

impl From<EntropyError> for CryptoError {
    fn from(err: EntropyError) -> (r: CryptoError) {
        match err {
            EntropyError::RepetitionCheckFailed => CryptoError::EntropyHealthCheckFailed,
            EntropyError::ProportionCheckFailed => CryptoError::EntropyHealthCheckFailed,
            EntropyError::NoSources => CryptoError::InvalidState,
        }
    }
}

impl vstd::std_specs::convert::FromSpecImpl<EntropyError> for CryptoError {
    open spec fn obeys_from_spec() -> bool {
        true
    }

    open spec fn from_spec(v: EntropyError) -> CryptoError {
        crypto_error_of(v)
    }
}

/// The error that a refused lifecycle event is reported as.
pub open spec fn crypto_error_of_fsm(e: FsmError) -> CryptoError {
    match e {
        FsmError::InvalidTransition => CryptoError::FsmInvalidTransition,
        FsmError::UsageExceeded => CryptoError::FsmUsageExceeded,
    }
}

impl From<FsmError> for CryptoError {
    fn from(err: FsmError) -> (r: CryptoError) {
        match err {
            FsmError::InvalidTransition => CryptoError::FsmInvalidTransition,
            FsmError::UsageExceeded => CryptoError::FsmUsageExceeded,
        }
    }
}

impl vstd::std_specs::convert::FromSpecImpl<FsmError> for CryptoError {
    open spec fn obeys_from_spec() -> bool {
        true
    }

    open spec fn from_spec(v: FsmError) -> CryptoError {
        crypto_error_of_fsm(v)
    }
}

} // verus!

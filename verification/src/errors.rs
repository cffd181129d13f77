//! Error taxonomy shared by the vault lifecycle components.

use vstd::prelude::*;

verus! {

/// Every way a vault lifecycle operation can be rejected or fail.
///
/// Validation and authorization errors (`Unauthorized`, `OverDeposit`,
/// `InsufficientFunds`, `InvalidSignature`) are local and non-retryable.
/// `DecryptionFailure` is fatal and never retried. Transient network errors
/// surface as `SubmissionExhausted` only once the retry budget is spent.
#[derive(Clone, Copy, Debug, PartialEq, Eq, Structural)]
pub enum VaultError {
    /// The caller is not the wallet that owns the resource.
    Unauthorized,
    /// The vault is inactive or closed.
    VaultInactive,
    /// The delegation window has elapsed.
    SessionExpired,
    /// Cleanup was attempted before the inactivity threshold elapsed.
    SessionNotExpired,
    /// A deposit would push `total_deposited` past `approved_amount`.
    OverDeposit,
    /// The vault holds less than the requested fee.
    InsufficientFunds,
    /// The sealing cipher refused the plaintext.
    EncryptionFailure,
    /// The authentication tag did not verify: wrong key, truncation, or tampering.
    DecryptionFailure,
    /// The capability signature did not verify, or the signer is not the parent.
    InvalidSignature,
    /// No record exists under the given identifier.
    NotFound,
    /// Every submission attempt failed with a transient error.
    SubmissionExhausted,
    /// The parent wallet already has an active session.
    ActiveSessionExists,
}

impl VaultError {
    /// A short human-readable label for logs and responses.
    pub fn label(&self) -> (s: &'static str)
    {
        match self {
            VaultError::Unauthorized => "unauthorized",
            VaultError::VaultInactive => "vault inactive",
            VaultError::SessionExpired => "session expired",
            VaultError::SessionNotExpired => "session not expired",
            VaultError::OverDeposit => "deposit exceeds approved limit",
            VaultError::InsufficientFunds => "insufficient funds",
            VaultError::EncryptionFailure => "encryption failure",
            VaultError::DecryptionFailure => "decryption failure",
            VaultError::InvalidSignature => "invalid signature",
            VaultError::NotFound => "not found",
            VaultError::SubmissionExhausted => "submission retries exhausted",
            VaultError::ActiveSessionExists => "an active session already exists",
        }
    }
}

} // verus!

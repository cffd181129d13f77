//! Transaction signing support: reloading the sealed ephemeral key for one
//! signing operation, and the retry decisions of the submission loop.
//!
//! The driver performing the network submission owns the loop: it fetches
//! fresh blockhash material before every attempt (never re-submitting under
//! a stale one), performs the attempt, and asks `next_step` what to do with
//! the outcome. Everything that decides lives here; everything that blocks
//! on the network lives with the driver.

use vstd::prelude::*;
use crate::custody::{KeyCustodian, MAX_PLAINTEXT_LEN, SEALING_KEY_LEN};
use crate::errors::VaultError;
use crate::retry::{BackoffPolicy, RetryDecision, SubmitOutcome};

verus! {

/// Decrypts ephemeral keys transiently and times the submission retries.
pub struct TransactionSigner {
    pub custodian: KeyCustodian,
    pub policy: BackoffPolicy,
}

impl TransactionSigner {
    pub open spec fn wf(&self) -> bool {
        &&& self.custodian.wf()
        &&& self.policy.wf()
    }

    /// A signer over the process sealing key, with the standard five-shot
    /// doubling backoff.
    pub fn new(sealing_key: Vec<u8>) -> (t: Self)
        requires
            sealing_key@.len() == SEALING_KEY_LEN,
        ensures
            t.wf(),
            t.custodian.sealing_key@ == sealing_key@,
            t.policy == (BackoffPolicy { base_delay_ms: 200, multiplier: 2, max_attempts: 5 }),
    {
        TransactionSigner {
            custodian: KeyCustodian::new(sealing_key),
            policy: BackoffPolicy::standard(),
        }
    }

    /// Decrypt a `nonce ‖ ciphertext ‖ tag` blob into the raw signing key
    /// it seals. The key exists only in the returned value, for the
    /// duration of one signing operation; nothing is cached. Succeeds
    /// exactly on blobs sealed under this signer's key.
    pub fn decrypt_keypair(&self, encrypted_blob: &Vec<u8>) -> (r: Result<Vec<u8>, VaultError>)
        requires
            self.wf(),
        ensures
            r matches Ok(k) ==> self.custodian.spec_sealed(encrypted_blob@, k@),
            r matches Err(e) ==> {
                &&& e == VaultError::DecryptionFailure
                &&& forall|q: Seq<u8>|
                    q.len() <= MAX_PLAINTEXT_LEN
                        ==> !#[trigger] self.custodian.spec_sealed(encrypted_blob@, q)
            },
            (exists|q: Seq<u8>|
                q.len() <= MAX_PLAINTEXT_LEN
                    && #[trigger] self.custodian.spec_sealed(encrypted_blob@, q)) ==> r is Ok,
    {
        self.custodian.decrypt(encrypted_blob)
    }

    /// What the submission loop must do after attempt `attempt` ended with
    /// `outcome`: only transient errors are retried, ledger rejections
    /// surface at once, and a spent budget becomes `SubmissionExhausted`.
    pub fn next_step(&self, attempt: u32, outcome: SubmitOutcome) -> (d: RetryDecision)
        requires
            self.wf(),
        ensures
            d == match outcome {
                SubmitOutcome::Confirmed => RetryDecision::Done,
                SubmitOutcome::Fatal => RetryDecision::Abort,
                SubmitOutcome::Transient => {
                    if attempt + 1 < self.policy.max_attempts {
                        RetryDecision::RetryAfter((self.policy.spec_delay(attempt)) as u64)
                    } else {
                        RetryDecision::Exhausted
                    }
                },
            },
    {
        self.policy.next_step(attempt, outcome)
    }
}

} // verus!

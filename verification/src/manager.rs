//! Session lifecycle orchestration: minting an ephemeral identity, sealing
//! its key, persisting the record, and reloading the key for one signing
//! operation.
//!
//! The manager holds only the key custodian; the store is handed in
//! explicitly, so there is no process-wide singleton. Decrypted key material
//! is returned to the caller's stack frame for a single signing operation
//! and never cached.

use vstd::prelude::*;
use crate::custody::{generate_keypair, KeyCustodian, MAX_PLAINTEXT_LEN, SEALING_KEY_LEN};
use crate::errors::VaultError;
use crate::keys::{is_wallet_key, spec_vault_address};
use crate::session::{EphemeralSession, SessionStore};

verus! {

/// Mints, seals and reloads ephemeral session identities.
pub struct SessionManager {
    pub custodian: KeyCustodian,
}

impl SessionManager {
    pub open spec fn wf(&self) -> bool {
        self.custodian.wf()
    }

    /// Build a manager around the process sealing key.
    pub fn new(sealing_key: Vec<u8>) -> (m: Self)
        requires
            sealing_key@.len() == SEALING_KEY_LEN,
        ensures
            m.wf(),
            m.custodian.sealing_key@ == sealing_key@,
    {
        SessionManager { custodian: KeyCustodian::new(sealing_key) }
    }

    /// Start a session for `parent_wallet`: mint a fresh signing identity,
    /// seal its private key, and persist an active row. Rejected with
    /// `ActiveSessionExists` when the parent already has an active session,
    /// leaving the store unchanged; the returned record carries only the
    /// sealed key, never plaintext key material.
    pub fn create_session(
        &self,
        store: &mut SessionStore,
        parent_wallet: Vec<u8>,
        approved_amount: u64,
        session_duration_secs: i64,
        now: i64,
    ) -> (r: Result<EphemeralSession, VaultError>)
        requires
            self.wf(),
            old(store).wf(),
            is_wallet_key(parent_wallet@),
            0 <= now,
            0 < session_duration_secs,
            now + session_duration_secs <= i64::MAX,
        ensures
            final(store).wf(),
            r is Ok <==> !old(store).spec_has_active(parent_wallet@),
            r is Err ==> *final(store) == *old(store)
                && (r matches Err(e) && e == VaultError::ActiveSessionExists),
            r matches Ok(s) ==> {
                &&& s.wf()
                &&& s.active
                &&& s.parent_wallet@ == parent_wallet@
                &&& s.vault_address@ == spec_vault_address(parent_wallet@)
                &&& s.approved_amount == approved_amount
                &&& s.total_deposited == 0
                &&& s.delegate_pubkey is None
                &&& !s.delegate_approved
                &&& s.created_at == now
                &&& s.expires_at == now + session_duration_secs
                &&& exists|sk: Seq<u8>|
                    sk.len() == 32 && self.custodian.spec_sealed(s.encrypted_key@, sk)
                &&& final(store).sessions@.len() == old(store).sessions@.len() + 1
                &&& final(store).sessions@.last().same_as(&s)
                &&& final(store).sessions@.subrange(0, old(store).sessions@.len() as int)
                    == old(store).sessions@
                &&& final(store).spec_has_active(parent_wallet@)
            },
    {
        if store.has_active_session(&parent_wallet) {
            return Result::Err(VaultError::ActiveSessionExists);
        }
        let (secret_key, public_key) = generate_keypair();
        let encrypted_key = self.custodian.encrypt(&secret_key);
        let record = EphemeralSession::new(
            parent_wallet,
            public_key,
            encrypted_key,
            approved_amount,
            session_duration_secs,
            now,
        );
        let copy = record.clone();
        proof {
            assert(copy.wf());
        }
        let ghost before = store.sessions@;
        let saved = store.save_session(copy);
        proof {
            assert(saved is Ok);
            assert(store.sessions@.subrange(0, before.len() as int) =~= before);
        }
        Result::Ok(record)
    }

    /// Reload the session's ephemeral signing key for one signing
    /// operation. Succeeds exactly on a blob sealed under this manager's
    /// key; anything else — another process's key, truncation, tampering —
    /// fails with `DecryptionFailure`.
    pub fn load_keypair(&self, session: &EphemeralSession) -> (r: Result<Vec<u8>, VaultError>)
        requires
            self.wf(),
        ensures
            r matches Ok(k) ==> self.custodian.spec_sealed(session.encrypted_key@, k@),
            r matches Err(e) ==> {
                &&& e == VaultError::DecryptionFailure
                &&& forall|q: Seq<u8>|
                    q.len() <= MAX_PLAINTEXT_LEN
                        ==> !#[trigger] self.custodian.spec_sealed(session.encrypted_key@, q)
            },
            (exists|q: Seq<u8>|
                q.len() <= MAX_PLAINTEXT_LEN
                    && #[trigger] self.custodian.spec_sealed(session.encrypted_key@, q)) ==> r is Ok,
    {
        self.custodian.decrypt(&session.encrypted_key)
    }

    /// The monitor-driven expiry sweep: flip every active, expired row to
    /// inactive. Idempotent — a second sweep at the same clock is a no-op.
    pub fn cleanup_expired(&self, store: &mut SessionStore, now: i64)
        requires
            old(store).wf(),
        ensures
            final(store).wf(),
            final(store).sessions@.len() == old(store).sessions@.len(),
            forall|i: int|
                0 <= i < old(store).sessions@.len()
                    ==> final(store).sessions@[i]
                        == (#[trigger] old(store).sessions@[i]).spec_deactivate_expired(now),
    {
        store.deactivate_expired(now);
    }
}

} // verus!

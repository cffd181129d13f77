//! Off-chain session records and their store.
//!
//! One record per vault lifecycle. The store enforces the single-active-
//! session rule with an atomic check inside `save_session`, never a
//! read-then-write race at the caller, and nothing is deleted until cleanup
//! completes — expiry merely flips `active` off.

use vstd::prelude::*;
use crate::errors::VaultError;
use crate::keys::{bytes_eq, is_wallet_key, spec_vault_address, derive_vault_address};

verus! {

/// Relies on uuid's `Uuid::new_v4` and `as_u128`: a freshly drawn random
/// 128-bit identifier. Nothing is promised of the value.
#[verifier::external_body]
fn fresh_session_id() -> (r: u128)
{
    uuid::Uuid::new_v4().as_u128()
}

/// One ephemeral trading session, mapped 1:1 with a vault.
#[derive(Debug)]
pub struct EphemeralSession {
    pub id: u128,
    /// The long-lived wallet that owns funds and granted the session.
    pub parent_wallet: Vec<u8>,
    /// The short-lived signing identity generated for this session.
    pub ephemeral_wallet: Vec<u8>,
    /// The deterministically derived ledger account holding the funds.
    pub vault_address: Vec<u8>,
    /// The ephemeral private key at rest: `nonce ‖ ciphertext ‖ tag`.
    pub encrypted_key: Vec<u8>,
    pub approved_amount: u64,
    pub total_deposited: u64,
    pub delegate_pubkey: Option<Vec<u8>>,
    pub delegate_approved: bool,
    pub created_at: i64,
    pub expires_at: i64,
    pub active: bool,
}

impl EphemeralSession {
    /// Structural invariant of a session row.
    pub open spec fn wf(&self) -> bool {
        &&& is_wallet_key(self.parent_wallet@)
        &&& is_wallet_key(self.ephemeral_wallet@)
        &&& self.vault_address@ == spec_vault_address(self.parent_wallet@)
        &&& self.total_deposited <= self.approved_amount
        &&& 0 <= self.created_at
        &&& self.created_at < self.expires_at
        &&& match self.delegate_pubkey {
            Option::Some(d) => is_wallet_key(d@),
            Option::None => true,
        }
    }

    /// The delegate recorded on the session, as bytes, if any.
    pub open spec fn spec_delegate(&self) -> Option<Seq<u8>> {
        match self.delegate_pubkey {
            Option::Some(d) => Option::Some(d@),
            Option::None => Option::None,
        }
    }

    /// Field-for-field agreement of two rows, comparing byte fields by
    /// contents.
    pub open spec fn same_as(&self, other: &EphemeralSession) -> bool {
        &&& self.id == other.id
        &&& self.parent_wallet@ == other.parent_wallet@
        &&& self.ephemeral_wallet@ == other.ephemeral_wallet@
        &&& self.vault_address@ == other.vault_address@
        &&& self.encrypted_key@ == other.encrypted_key@
        &&& self.approved_amount == other.approved_amount
        &&& self.total_deposited == other.total_deposited
        &&& self.spec_delegate() == other.spec_delegate()
        &&& self.delegate_approved == other.delegate_approved
        &&& self.created_at == other.created_at
        &&& self.expires_at == other.expires_at
        &&& self.active == other.active
    }

    /// Whether the session's window has ended at time `now`.
    pub open spec fn spec_expired(&self, now: i64) -> bool {
        self.expires_at <= now
    }

    /// A row as the monitor's expiry sweep leaves it: an active row past its
    /// expiry is deactivated, every other row is untouched.
    pub open spec fn spec_deactivate_expired(self, now: i64) -> EphemeralSession {
        if self.active && self.spec_expired(now) {
            EphemeralSession { active: false, ..self }
        } else {
            self
        }
    }

    /// Law: the expiry sweep is idempotent on a row — sweeping an already
    /// swept row changes nothing.
    pub proof fn lemma_deactivate_expired_idempotent(self, now: i64)
        ensures
            self.spec_deactivate_expired(now).spec_deactivate_expired(now)
                == self.spec_deactivate_expired(now),
    {
    }

    /// Build a fresh, active session row. The identifier is drawn at
    /// random; timestamps are stamped from `now` and the requested
    /// lifetime.
    pub fn new(
        parent_wallet: Vec<u8>,
        ephemeral_wallet: Vec<u8>,
        encrypted_key: Vec<u8>,
        approved_amount: u64,
        session_duration_secs: i64,
        now: i64,
    ) -> (s: EphemeralSession)
        requires
            is_wallet_key(parent_wallet@),
            is_wallet_key(ephemeral_wallet@),
            0 <= now,
            0 < session_duration_secs,
            now + session_duration_secs <= i64::MAX,
        ensures
            s.wf(),
            s.parent_wallet@ == parent_wallet@,
            s.ephemeral_wallet@ == ephemeral_wallet@,
            s.vault_address@ == spec_vault_address(parent_wallet@),
            s.encrypted_key@ == encrypted_key@,
            s.approved_amount == approved_amount,
            s.total_deposited == 0,
            s.delegate_pubkey is None,
            !s.delegate_approved,
            s.created_at == now,
            s.expires_at == now + session_duration_secs,
            s.active,
    {
        let vault_address = derive_vault_address(&parent_wallet);
        EphemeralSession {
            id: fresh_session_id(),
            parent_wallet,
            ephemeral_wallet,
            vault_address,
            encrypted_key,
            approved_amount,
            total_deposited: 0,
            delegate_pubkey: Option::None,
            delegate_approved: false,
            created_at: now,
            expires_at: now + session_duration_secs,
            active: true,
        }
    }
}

impl Clone for EphemeralSession {
    fn clone(&self) -> (r: Self)
        ensures
            r.same_as(self),
    {
        EphemeralSession {
            id: self.id,
            parent_wallet: self.parent_wallet.clone(),
            ephemeral_wallet: self.ephemeral_wallet.clone(),
            vault_address: self.vault_address.clone(),
            encrypted_key: self.encrypted_key.clone(),
            approved_amount: self.approved_amount,
            total_deposited: self.total_deposited,
            delegate_pubkey: match &self.delegate_pubkey {
                Option::Some(d) => Option::Some(d.clone()),
                Option::None => Option::None,
            },
            delegate_approved: self.delegate_approved,
            created_at: self.created_at,
            expires_at: self.expires_at,
            active: self.active,
        }
    }
}

/// A request to start a session, as the control surface hands it in.
pub struct CreateSessionRequest {
    /// The caller's identifier for the parent wallet.
    pub user_id: String,
    /// Requested session lifetime, in minutes.
    pub lifetime_minutes: i64,
}

/// The minimal creation request: only the parent wallet's identifier.
pub struct EphemeralSessionCreateRequest {
    pub user: String,
}

/// What a creation call answers. Deliberately excludes the sealed key:
/// creation never returns key material.
pub struct EphemeralSessionCreateResponse {
    pub id: u128,
    pub parent_wallet: Vec<u8>,
    pub ephemeral_wallet: Vec<u8>,
    pub vault_address: Vec<u8>,
    pub expires_at: i64,
}

impl From<EphemeralSession> for EphemeralSessionCreateResponse {
    fn from(s: EphemeralSession) -> (r: Self)
    {
        EphemeralSessionCreateResponse {
            id: s.id,
            parent_wallet: s.parent_wallet,
            ephemeral_wallet: s.ephemeral_wallet,
            vault_address: s.vault_address,
            expires_at: s.expires_at,
        }
    }
}

impl vstd::std_specs::convert::FromSpecImpl<EphemeralSession> for EphemeralSessionCreateResponse {
    open spec fn obeys_from_spec() -> bool {
        true
    }

    open spec fn from_spec(s: EphemeralSession) -> Self {
        EphemeralSessionCreateResponse {
            id: s.id,
            parent_wallet: s.parent_wallet,
            ephemeral_wallet: s.ephemeral_wallet,
            vault_address: s.vault_address,
            expires_at: s.expires_at,
        }
    }
}

/// The index of the first row carrying `id`, if any.
pub open spec fn spec_find_session(s: Seq<EphemeralSession>, id: u128) -> Option<int>
    decreases s.len(),
{
    if s.len() == 0 {
        Option::None
    } else if s[0].id == id {
        Option::Some(0)
    } else {
        match spec_find_session(s.drop_first(), id) {
            Option::Some(i) => Option::Some(i + 1),
            Option::None => Option::None,
        }
    }
}

/// What `spec_find_session` returns: the first index holding `id`, or
/// nothing when no row holds it.
pub proof fn lemma_find_session_props(s: Seq<EphemeralSession>, id: u128)
    ensures
        match spec_find_session(s, id) {
            Option::Some(i) => {
                &&& 0 <= i < s.len()
                &&& s[i].id == id
                &&& forall|j: int| 0 <= j < i ==> (#[trigger] s[j]).id != id
            },
            Option::None => forall|j: int| 0 <= j < s.len() ==> (#[trigger] s[j]).id != id,
        },
    decreases s.len(),
{
    if s.len() > 0 && s[0].id != id {
        let rest = s.drop_first();
        lemma_find_session_props(rest, id);
        assert(forall|j: int| 1 <= j < s.len() ==> s[j] == #[trigger] rest[j - 1]);
        match spec_find_session(rest, id) {
            Option::Some(i) => {
                assert forall|j: int| 0 <= j < i + 1 implies (#[trigger] s[j]).id != id by {
                    if j >= 1 {
                        assert(rest[j - 1].id != id);
                    }
                }
            },
            Option::None => {
                assert forall|j: int| 0 <= j < s.len() implies (#[trigger] s[j]).id != id by {
                    if j >= 1 {
                        assert(rest[j - 1].id != id);
                    }
                }
            },
        }
    }
}

/// The persisted set of session rows.
pub struct SessionStore {
    pub sessions: Vec<EphemeralSession>,
}

impl SessionStore {
    /// Store invariant: every row is well formed, and no parent wallet has
    /// two active rows.
    pub open spec fn wf(&self) -> bool {
        &&& forall|i: int| 0 <= i < self.sessions@.len() ==> (#[trigger] self.sessions@[i]).wf()
        &&& forall|i: int, j: int|
            0 <= i < self.sessions@.len() && 0 <= j < self.sessions@.len() && i != j
                && (#[trigger] self.sessions@[i]).active && (#[trigger] self.sessions@[j]).active
                ==> self.sessions@[i].parent_wallet@ != self.sessions@[j].parent_wallet@
    }

    /// Whether some row is active for `parent`.
    pub open spec fn spec_has_active(&self, parent: Seq<u8>) -> bool {
        exists|i: int|
            0 <= i < self.sessions@.len() && (#[trigger] self.sessions@[i]).active
                && self.sessions@[i].parent_wallet@ == parent
    }

    /// Law: in a well-formed store there is never more than one active row
    /// per parent wallet — any two distinct active rows belong to distinct
    /// parents.
    pub proof fn lemma_single_active_session(&self, i: int, j: int)
        requires
            self.wf(),
            0 <= i < self.sessions@.len(),
            0 <= j < self.sessions@.len(),
            i != j,
            self.sessions@[i].active,
            self.sessions@[j].active,
        ensures
            self.sessions@[i].parent_wallet@ != self.sessions@[j].parent_wallet@,
    {
    }

    pub fn new() -> (s: Self)
        ensures
            s.wf(),
            s.sessions@.len() == 0,
    {
        SessionStore { sessions: Vec::new() }
    }

    /// Whether `parent` currently has an active session.
    pub fn has_active_session(&self, parent: &Vec<u8>) -> (r: bool)
        ensures
            r == self.spec_has_active(parent@),
    {
        let n = self.sessions.len();
        let mut i: usize = 0;
        while i < n
            invariant
                n == self.sessions@.len(),
                i <= n,
                forall|j: int|
                    0 <= j < i ==> !((#[trigger] self.sessions@[j]).active
                        && self.sessions@[j].parent_wallet@ == parent@),
            decreases n - i,
        {
            if self.sessions[i].active && bytes_eq(&self.sessions[i].parent_wallet, parent) {
                return true;
            }
            i = i + 1;
        }
        false
    }

    /// Persist a fresh, active session. The atomic check rejecting a second
    /// active row for the same parent lives here, so callers cannot race a
    /// read against a write.
    pub fn save_session(&mut self, session: EphemeralSession) -> (r: Result<(), VaultError>)
        requires
            old(self).wf(),
            session.wf(),
            session.active,
        ensures
            final(self).wf(),
            r is Ok <==> !old(self).spec_has_active(session.parent_wallet@),
            r is Err ==> *final(self) == *old(self)
                && (r matches Err(e) && e == VaultError::ActiveSessionExists),
            r is Ok ==> final(self).sessions@ == old(self).sessions@.push(session),
            r is Ok ==> final(self).spec_has_active(session.parent_wallet@),
    {
        if self.has_active_session(&session.parent_wallet) {
            return Result::Err(VaultError::ActiveSessionExists);
        }
        self.sessions.push(session);
        proof {
            let n = self.sessions@.len() - 1;
            assert(self.sessions@[n].active);
        }
        Result::Ok(())
    }

    /// Index of the first row with identifier `id`, if one exists.
    pub fn find_session(&self, id: u128) -> (r: Option<usize>)
        ensures
            match r {
                Option::Some(i) => spec_find_session(self.sessions@, id) == Option::Some(i as int),
                Option::None => spec_find_session(self.sessions@, id) is None,
            },
            r matches Some(i) ==> i < self.sessions@.len() && self.sessions@[i as int].id == id,
            r is None ==> forall|i: int|
                0 <= i < self.sessions@.len() ==> (#[trigger] self.sessions@[i]).id != id,
    {
        proof {
            lemma_find_session_props(self.sessions@, id);
        }
        let n = self.sessions.len();
        let mut i: usize = 0;
        while i < n
            invariant
                n == self.sessions@.len(),
                i <= n,
                forall|j: int| 0 <= j < i ==> (#[trigger] self.sessions@[j]).id != id,
            decreases n - i,
        {
            if self.sessions[i].id == id {
                proof {
                    lemma_find_session_props(self.sessions@, id);
                    match spec_find_session(self.sessions@, id) {
                        Option::Some(k) => {
                            if k < i {
                                assert(self.sessions@[k].id != id);
                            } else if k > i {
                                assert(self.sessions@[i as int].id != id);
                            }
                        },
                        Option::None => {
                            assert(self.sessions@[i as int].id != id);
                        },
                    }
                }
                return Option::Some(i);
            }
            i = i + 1;
        }
        Option::None
    }

    /// A copy of the row with identifier `id`, if one exists.
    pub fn get_session(&self, id: u128) -> (r: Option<EphemeralSession>)
        ensures
            r matches Some(s) ==> exists|i: int|
                0 <= i < self.sessions@.len() && (#[trigger] self.sessions@[i]).id == id
                    && s.same_as(&self.sessions@[i]),
            r is None ==> forall|i: int|
                0 <= i < self.sessions@.len() ==> (#[trigger] self.sessions@[i]).id != id,
    {
        match self.find_session(id) {
            Option::Some(i) => Option::Some(self.sessions[i].clone()),
            Option::None => Option::None,
        }
    }

    /// Record an approved delegation on the row with identifier `id`. The
    /// delegate is set and flagged approved, and the approved amount and
    /// expiry are replaced by the capability's values. Fails with
    /// `NotFound` when no row holds `id`, with `OverDeposit` when the new
    /// cap would fall below what was already deposited, and with
    /// `SessionExpired` when the new expiry does not lie after creation.
    pub fn set_delegation(
        &mut self,
        id: u128,
        delegate_pubkey: Vec<u8>,
        approved_amount: u64,
        expires_at: i64,
    ) -> (r: Result<(), VaultError>)
        requires
            old(self).wf(),
            is_wallet_key(delegate_pubkey@),
        ensures
            final(self).wf(),
            r is Err ==> *final(self) == *old(self),
            r matches Err(e) ==> (match spec_find_session(old(self).sessions@, id) {
                Option::Some(i) => {
                    if approved_amount < old(self).sessions@[i].total_deposited {
                        e == VaultError::OverDeposit
                    } else if expires_at <= old(self).sessions@[i].created_at {
                        e == VaultError::SessionExpired
                    } else {
                        false
                    }
                },
                Option::None => e == VaultError::NotFound,
            }),
            r is Ok <==> (match spec_find_session(old(self).sessions@, id) {
                Option::Some(i) => old(self).sessions@[i].total_deposited <= approved_amount
                    && old(self).sessions@[i].created_at < expires_at,
                Option::None => false,
            }),
            r is Ok ==> (match spec_find_session(old(self).sessions@, id) {
                Option::Some(i) => final(self).sessions@ == old(self).sessions@.update(
                    i,
                    EphemeralSession {
                        delegate_pubkey: Option::Some(delegate_pubkey),
                        delegate_approved: true,
                        approved_amount,
                        expires_at,
                        ..old(self).sessions@[i]
                    },
                ),
                Option::None => false,
            }),
    {
        let idx = match self.find_session(id) {
            Option::Some(i) => i,
            Option::None => {
                return Result::Err(VaultError::NotFound);
            },
        };
        if approved_amount < self.sessions[idx].total_deposited {
            return Result::Err(VaultError::OverDeposit);
        }
        if expires_at <= self.sessions[idx].created_at {
            return Result::Err(VaultError::SessionExpired);
        }
        self.sessions[idx].delegate_pubkey = Option::Some(delegate_pubkey);
        self.sessions[idx].delegate_approved = true;
        self.sessions[idx].approved_amount = approved_amount;
        self.sessions[idx].expires_at = expires_at;
        Result::Ok(())
    }

    /// Record that a top-up of `amount` completed for the row with
    /// identifier `id`, returning the new cumulative total. Fails with
    /// `NotFound` when no row holds `id` and with `OverDeposit` when the
    /// deposit would pass the approved amount, leaving the row unchanged.
    pub fn record_deposit(&mut self, id: u128, amount: u64) -> (r: Result<u64, VaultError>)
        requires
            old(self).wf(),
        ensures
            final(self).wf(),
            r is Err ==> *final(self) == *old(self),
            r matches Err(e) ==> (match spec_find_session(old(self).sessions@, id) {
                Option::Some(i) => e == VaultError::OverDeposit
                    && old(self).sessions@[i].total_deposited + amount
                        > old(self).sessions@[i].approved_amount,
                Option::None => e == VaultError::NotFound,
            }),
            r is Ok <==> (match spec_find_session(old(self).sessions@, id) {
                Option::Some(i) => old(self).sessions@[i].total_deposited + amount
                    <= old(self).sessions@[i].approved_amount,
                Option::None => false,
            }),
            r matches Ok(total) ==> (match spec_find_session(old(self).sessions@, id) {
                Option::Some(i) => {
                    &&& total == old(self).sessions@[i].total_deposited + amount
                    &&& final(self).sessions@ == old(self).sessions@.update(
                        i,
                        EphemeralSession { total_deposited: total, ..old(self).sessions@[i] },
                    )
                },
                Option::None => false,
            }),
    {
        let idx = match self.find_session(id) {
            Option::Some(i) => i,
            Option::None => {
                return Result::Err(VaultError::NotFound);
            },
        };
        if amount > self.sessions[idx].approved_amount - self.sessions[idx].total_deposited {
            return Result::Err(VaultError::OverDeposit);
        }
        let total = self.sessions[idx].total_deposited + amount;
        self.sessions[idx].total_deposited = total;
        Result::Ok(total)
    }

    /// Mark the row with identifier `id` inactive. Ending a row that is
    /// already inactive is a no-op, not an error; only a missing row fails,
    /// with `NotFound`.
    pub fn end_session(&mut self, id: u128) -> (r: Result<(), VaultError>)
        requires
            old(self).wf(),
        ensures
            final(self).wf(),
            r is Err ==> *final(self) == *old(self)
                && (r matches Err(e) && e == VaultError::NotFound),
            r is Ok <==> spec_find_session(old(self).sessions@, id) is Some,
            r is Ok ==> (match spec_find_session(old(self).sessions@, id) {
                Option::Some(i) => final(self).sessions@ == old(self).sessions@.update(
                    i,
                    EphemeralSession { active: false, ..old(self).sessions@[i] },
                ),
                Option::None => false,
            }),
    {
        let idx = match self.find_session(id) {
            Option::Some(i) => i,
            Option::None => {
                return Result::Err(VaultError::NotFound);
            },
        };
        self.sessions[idx].active = false;
        Result::Ok(())
    }

    /// The monitor's expiry sweep: deactivate every active row whose expiry
    /// has passed, touching nothing else. Running the sweep twice with the
    /// same clock leaves the same store as running it once.
    pub fn deactivate_expired(&mut self, now: i64)
        requires
            old(self).wf(),
        ensures
            final(self).wf(),
            final(self).sessions@.len() == old(self).sessions@.len(),
            forall|i: int|
                0 <= i < old(self).sessions@.len()
                    ==> final(self).sessions@[i]
                        == (#[trigger] old(self).sessions@[i]).spec_deactivate_expired(now),
    {
        let ghost orig = self.sessions@;
        let n = self.sessions.len();
        let mut i: usize = 0;
        while i < n
            invariant
                n == orig.len(),
                i <= n,
                self.sessions@.len() == orig.len(),
                forall|j: int| i <= j < n ==> self.sessions@[j] == orig[j],
                forall|j: int|
                    0 <= j < i ==> self.sessions@[j]
                        == (#[trigger] orig[j]).spec_deactivate_expired(now),
                forall|j: int| 0 <= j < n ==> (#[trigger] orig[j]).wf(),
            decreases n - i,
        {
            if self.sessions[i].active && self.sessions[i].expires_at <= now {
                self.sessions[i].active = false;
            }
            i = i + 1;
        }
        proof {
            assert forall|k: int| 0 <= k < self.sessions@.len()
                implies (#[trigger] self.sessions@[k]).wf() by {
                assert(self.sessions@[k] == orig[k].spec_deactivate_expired(now));
            }
            assert forall|k: int, l: int|
                0 <= k < self.sessions@.len() && 0 <= l < self.sessions@.len() && k != l
                    && (#[trigger] self.sessions@[k]).active && (#[trigger] self.sessions@[l]).active
                implies self.sessions@[k].parent_wallet@ != self.sessions@[l].parent_wallet@ by {
                assert(self.sessions@[k] == orig[k].spec_deactivate_expired(now));
                assert(self.sessions@[l] == orig[l].spec_deactivate_expired(now));
                assert(orig[k].active && orig[l].active);
            }
        }
    }
}

} // verus!

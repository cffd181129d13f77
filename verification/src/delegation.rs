//! The delegation authorization protocol: the signed capability a parent
//! grants to a delegate.
//!
//! The capability's canonical byte encoding is what the parent signs. The
//! encoding is deterministic — stable field order, fixed-width integers,
//! length-prefixed variable fields — so verification is reproducible from
//! the field values alone.

use vstd::prelude::*;
use vstd::bytes::{
    spec_u128_from_le_bytes, spec_u128_to_le_bytes, spec_u32_from_le_bytes,
    spec_u32_to_le_bytes, spec_u64_from_le_bytes, spec_u64_to_le_bytes, u128_to_le_bytes,
    u32_to_le_bytes, u64_to_le_bytes,
};
use crate::errors::VaultError;
use crate::keys::{append_bytes, bytes_eq, is_wallet_key};
use crate::session::SessionStore;

verus! {

/// Whether ed25519 verification accepts `sig` as a signature by `signer`
/// over `msg`. Deterministic in the three byte strings; a byte string that
/// is not a valid public key or signature verifies nothing. The predicate's
/// value is fixed by the signature scheme, not restated here.
pub uninterp spec fn ed25519_verifies(signer: Seq<u8>, msg: Seq<u8>, sig: Seq<u8>) -> bool;

/// Relies on ed25519_dalek's `VerifyingKey::from_bytes`,
/// `Signature::from_bytes` and `Verifier::verify`: deterministic in the
/// key, message and signature bytes; an undecodable key or a wrong-length
/// input verifies nothing.
#[verifier::external_body]
fn ed25519_verify(signer: &Vec<u8>, message: &Vec<u8>, signature: &Vec<u8>) -> (r: bool)
    ensures
        r == ed25519_verifies(signer@, message@, signature@),
{
    let key_bytes: [u8; 32] = match signer.as_slice().try_into() {
        Ok(b) => b,
        Err(_) => return false,
    };
    let sig_bytes: [u8; 64] = match signature.as_slice().try_into() {
        Ok(b) => b,
        Err(_) => return false,
    };
    let key = match ed25519_dalek::VerifyingKey::from_bytes(&key_bytes) {
        Ok(k) => k,
        Err(_) => return false,
    };
    let sig = ed25519_dalek::Signature::from_bytes(&sig_bytes);
    ed25519_dalek::Verifier::verify(&key, message.as_slice(), &sig).is_ok()
}

/// Relies on rand's `random`: a 64-bit value drawn from the thread RNG.
/// Nothing is promised of the value.
#[verifier::external_body]
fn random_u64() -> (r: u64)
{
    rand::random::<u64>()
}

/// The capability a parent signs: who may spend, from which vault, how
/// much, until when, under which scopes, with a one-time nonce for replay
/// protection. Not persisted as a row — verified, then projected into the
/// session record and the on-ledger authority.
pub struct DelegationPayload {
    /// The parent wallet granting the authority.
    pub parent: Vec<u8>,
    /// The session this capability belongs to.
    pub session_id: u128,
    /// The vault the delegate may spend from.
    pub vault: Vec<u8>,
    /// Cap on cumulative top-up volume.
    pub approved_amount: u64,
    /// One-time random value; replay protection.
    pub nonce: u64,
    /// Unix time at which the capability lapses.
    pub expiry_unix: i64,
    /// Named permissions granted to the delegate.
    pub scopes: Vec<Vec<u8>>,
}

impl DelegationPayload {
    /// Structural invariant: the parent is a wallet key and the
    /// variable-length fields fit their 32-bit length prefixes.
    pub open spec fn wf(&self) -> bool {
        &&& is_wallet_key(self.parent@)
        &&& self.vault@.len() <= u32::MAX
        &&& self.scopes@.len() <= u32::MAX
        &&& forall|i: int|
            0 <= i < self.scopes@.len() ==> (#[trigger] self.scopes@[i])@.len() <= u32::MAX
    }

    /// Semantic equality of two capabilities: every field carries the same
    /// values, byte fields compared by contents.
    pub open spec fn same_as(&self, other: &DelegationPayload) -> bool {
        &&& self.parent@ == other.parent@
        &&& self.session_id == other.session_id
        &&& self.vault@ == other.vault@
        &&& self.approved_amount == other.approved_amount
        &&& self.nonce == other.nonce
        &&& self.expiry_unix == other.expiry_unix
        &&& self.scopes.deep_view() == other.scopes.deep_view()
    }
}

/// Law: semantically equal capabilities serialize identically — the
/// canonical bytes depend on the field values alone, so what the parent
/// signs and what the verifier re-encodes always agree.
pub proof fn lemma_payload_bytes_deterministic(p1: &DelegationPayload, p2: &DelegationPayload)
    requires
        p1.same_as(p2),
    ensures
        spec_payload_bytes(p1) == spec_payload_bytes(p2),
{
    assert(p1.scopes@.len() == p1.scopes.deep_view().len());
    assert(p2.scopes@.len() == p2.scopes.deep_view().len());
}

/// Canonical encoding of a scope list: each scope length-prefixed, in
/// order.
pub open spec fn spec_scopes_bytes(scopes: Seq<Seq<u8>>) -> Seq<u8>
    decreases scopes.len(),
{
    if scopes.len() == 0 {
        Seq::empty()
    } else {
        spec_u32_to_le_bytes(scopes[0].len() as u32) + scopes[0]
            + spec_scopes_bytes(scopes.drop_first())
    }
}

/// Appending a scope extends its encoding on the right.
pub proof fn lemma_scopes_bytes_push(scopes: Seq<Seq<u8>>, scope: Seq<u8>)
    ensures
        spec_scopes_bytes(scopes.push(scope)) == spec_scopes_bytes(scopes)
            + spec_u32_to_le_bytes(scope.len() as u32) + scope,
    decreases scopes.len(),
{
    let pushed = scopes.push(scope);
    if scopes.len() == 0 {
        assert(pushed.drop_first() =~= Seq::<Seq<u8>>::empty());
        assert(spec_scopes_bytes(Seq::<Seq<u8>>::empty()) == Seq::<u8>::empty());
        assert(pushed[0] == scope);
        assert(spec_scopes_bytes(pushed) =~= spec_scopes_bytes(scopes)
            + spec_u32_to_le_bytes(scope.len() as u32) + scope);
    } else {
        assert(pushed.drop_first() =~= scopes.drop_first().push(scope));
        assert(pushed[0] == scopes[0]);
        lemma_scopes_bytes_push(scopes.drop_first(), scope);
        assert(spec_scopes_bytes(pushed) =~= spec_scopes_bytes(scopes)
            + spec_u32_to_le_bytes(scope.len() as u32) + scope);
    }
}

/// The canonical bytes of a capability: parent, session, length-prefixed
/// vault, the three fixed-width integers, then the length-prefixed scope
/// list.
pub open spec fn spec_payload_bytes(p: &DelegationPayload) -> Seq<u8> {
    p.parent@ + spec_u128_to_le_bytes(p.session_id) + spec_u32_to_le_bytes(p.vault@.len() as u32)
        + p.vault@ + spec_u64_to_le_bytes(p.approved_amount) + spec_u64_to_le_bytes(p.nonce)
        + spec_u64_to_le_bytes(p.expiry_unix as u64)
        + spec_u32_to_le_bytes(p.scopes@.len() as u32) + spec_scopes_bytes(p.scopes.deep_view())
}

/// Two concatenations with equally long left parts agree part for part.
pub proof fn lemma_concat_cancel(a1: Seq<u8>, b1: Seq<u8>, a2: Seq<u8>, b2: Seq<u8>)
    requires
        a1.len() == a2.len(),
        a1 + b1 == a2 + b2,
    ensures
        a1 == a2,
        b1 == b2,
{
    assert((a1 + b1).len() == (a2 + b2).len());
    assert((a1 + b1).len() == a1.len() + b1.len());
    assert((a2 + b2).len() == a2.len() + b2.len());
    assert forall|i: int| 0 <= i < a1.len() implies a1[i] == a2[i] by {
        assert((a1 + b1)[i] == a1[i]);
        assert((a2 + b2)[i] == a2[i]);
    }
    assert(a1 =~= a2);
    assert(b1.len() == b2.len());
    assert forall|i: int| 0 <= i < b1.len() implies b1[i] == b2[i] by {
        assert((a1 + b1)[i + a1.len()] == b1[i]);
        assert((a2 + b2)[i + a2.len()] == b2[i]);
    }
    assert(b1 =~= b2);
}

/// Equal scope encodings of equally many scopes come from equal scope
/// lists.
pub proof fn lemma_scopes_bytes_injective(s1: Seq<Seq<u8>>, s2: Seq<Seq<u8>>)
    requires
        s1.len() == s2.len(),
        forall|i: int| 0 <= i < s1.len() ==> (#[trigger] s1[i]).len() <= u32::MAX,
        forall|i: int| 0 <= i < s2.len() ==> (#[trigger] s2[i]).len() <= u32::MAX,
        spec_scopes_bytes(s1) == spec_scopes_bytes(s2),
    ensures
        s1 == s2,
    decreases s1.len(),
{
    vstd::bytes::lemma_auto_spec_u32_to_from_le_bytes();
    if s1.len() == 0 {
        assert(s1 =~= s2);
    } else {
        let h1 = s1[0];
        let h2 = s2[0];
        assert(spec_scopes_bytes(s1) == spec_u32_to_le_bytes(h1.len() as u32) + h1
            + spec_scopes_bytes(s1.drop_first()));
        assert(spec_scopes_bytes(s2) == spec_u32_to_le_bytes(h2.len() as u32) + h2
            + spec_scopes_bytes(s2.drop_first()));
        assert(spec_u32_to_le_bytes(h1.len() as u32) + h1 + spec_scopes_bytes(s1.drop_first())
            =~= spec_u32_to_le_bytes(h1.len() as u32)
                + (h1 + spec_scopes_bytes(s1.drop_first())));
        assert(spec_u32_to_le_bytes(h2.len() as u32) + h2 + spec_scopes_bytes(s2.drop_first())
            =~= spec_u32_to_le_bytes(h2.len() as u32)
                + (h2 + spec_scopes_bytes(s2.drop_first())));
        lemma_concat_cancel(
            spec_u32_to_le_bytes(h1.len() as u32),
            h1 + spec_scopes_bytes(s1.drop_first()),
            spec_u32_to_le_bytes(h2.len() as u32),
            h2 + spec_scopes_bytes(s2.drop_first()),
        );
        assert(spec_u32_from_le_bytes(spec_u32_to_le_bytes(h1.len() as u32))
            == spec_u32_from_le_bytes(spec_u32_to_le_bytes(h2.len() as u32)));
        assert(h1.len() as u32 == h2.len() as u32);
        assert(h1.len() == h2.len());
        lemma_concat_cancel(
            h1,
            spec_scopes_bytes(s1.drop_first()),
            h2,
            spec_scopes_bytes(s2.drop_first()),
        );
        lemma_scopes_bytes_injective(s1.drop_first(), s2.drop_first());
        assert(s1 =~= s2) by {
            assert(forall|i: int|
                1 <= i < s1.len() ==> #[trigger] s1[i] == s1.drop_first()[i - 1]);
            assert(forall|i: int|
                1 <= i < s2.len() ==> #[trigger] s2[i] == s2.drop_first()[i - 1]);
        }
    }
}

/// Law: the canonical encoding is injective — two capabilities with the
/// same bytes carry the same parent, session, vault, amounts, nonce,
/// expiry and scopes. With the encoding also a pure function of those
/// fields, signing and verification are deterministic.
pub proof fn lemma_payload_bytes_injective(p1: &DelegationPayload, p2: &DelegationPayload)
    requires
        p1.wf(),
        p2.wf(),
        spec_payload_bytes(p1) == spec_payload_bytes(p2),
    ensures
        p1.parent@ == p2.parent@,
        p1.session_id == p2.session_id,
        p1.vault@ == p2.vault@,
        p1.approved_amount == p2.approved_amount,
        p1.nonce == p2.nonce,
        p1.expiry_unix == p2.expiry_unix,
        p1.scopes.deep_view() == p2.scopes.deep_view(),
{
    vstd::bytes::lemma_auto_spec_u32_to_from_le_bytes();
    vstd::bytes::lemma_auto_spec_u64_to_from_le_bytes();
    vstd::bytes::lemma_auto_spec_u128_to_from_le_bytes();
    let scopes1 = p1.scopes.deep_view();
    let scopes2 = p2.scopes.deep_view();
    let r7_1 = spec_u32_to_le_bytes(p1.scopes@.len() as u32) + spec_scopes_bytes(scopes1);
    let r6_1 = spec_u64_to_le_bytes(p1.expiry_unix as u64) + r7_1;
    let r5_1 = spec_u64_to_le_bytes(p1.nonce) + r6_1;
    let r4_1 = spec_u64_to_le_bytes(p1.approved_amount) + r5_1;
    let r3_1 = p1.vault@ + r4_1;
    let r2_1 = spec_u32_to_le_bytes(p1.vault@.len() as u32) + r3_1;
    let r1_1 = spec_u128_to_le_bytes(p1.session_id) + r2_1;
    let r7_2 = spec_u32_to_le_bytes(p2.scopes@.len() as u32) + spec_scopes_bytes(scopes2);
    let r6_2 = spec_u64_to_le_bytes(p2.expiry_unix as u64) + r7_2;
    let r5_2 = spec_u64_to_le_bytes(p2.nonce) + r6_2;
    let r4_2 = spec_u64_to_le_bytes(p2.approved_amount) + r5_2;
    let r3_2 = p2.vault@ + r4_2;
    let r2_2 = spec_u32_to_le_bytes(p2.vault@.len() as u32) + r3_2;
    let r1_2 = spec_u128_to_le_bytes(p2.session_id) + r2_2;
    assert(spec_payload_bytes(p1) =~= p1.parent@ + r1_1);
    assert(spec_payload_bytes(p2) =~= p2.parent@ + r1_2);
    lemma_concat_cancel(p1.parent@, r1_1, p2.parent@, r1_2);
    lemma_concat_cancel(
        spec_u128_to_le_bytes(p1.session_id),
        r2_1,
        spec_u128_to_le_bytes(p2.session_id),
        r2_2,
    );
    assert(p1.session_id == p2.session_id) by {
        assert(spec_u128_from_le_bytes(spec_u128_to_le_bytes(p1.session_id))
            == spec_u128_from_le_bytes(spec_u128_to_le_bytes(p2.session_id)));
    }
    lemma_concat_cancel(
        spec_u32_to_le_bytes(p1.vault@.len() as u32),
        r3_1,
        spec_u32_to_le_bytes(p2.vault@.len() as u32),
        r3_2,
    );
    assert(p1.vault@.len() == p2.vault@.len()) by {
        assert(spec_u32_from_le_bytes(spec_u32_to_le_bytes(p1.vault@.len() as u32))
            == spec_u32_from_le_bytes(spec_u32_to_le_bytes(p2.vault@.len() as u32)));
    }
    lemma_concat_cancel(p1.vault@, r4_1, p2.vault@, r4_2);
    lemma_concat_cancel(
        spec_u64_to_le_bytes(p1.approved_amount),
        r5_1,
        spec_u64_to_le_bytes(p2.approved_amount),
        r5_2,
    );
    assert(p1.approved_amount == p2.approved_amount) by {
        assert(spec_u64_from_le_bytes(spec_u64_to_le_bytes(p1.approved_amount))
            == spec_u64_from_le_bytes(spec_u64_to_le_bytes(p2.approved_amount)));
    }
    lemma_concat_cancel(
        spec_u64_to_le_bytes(p1.nonce),
        r6_1,
        spec_u64_to_le_bytes(p2.nonce),
        r6_2,
    );
    assert(p1.nonce == p2.nonce) by {
        assert(spec_u64_from_le_bytes(spec_u64_to_le_bytes(p1.nonce))
            == spec_u64_from_le_bytes(spec_u64_to_le_bytes(p2.nonce)));
    }
    lemma_concat_cancel(
        spec_u64_to_le_bytes(p1.expiry_unix as u64),
        r7_1,
        spec_u64_to_le_bytes(p2.expiry_unix as u64),
        r7_2,
    );
    assert(p1.expiry_unix as u64 == p2.expiry_unix as u64) by {
        assert(spec_u64_from_le_bytes(spec_u64_to_le_bytes(p1.expiry_unix as u64))
            == spec_u64_from_le_bytes(spec_u64_to_le_bytes(p2.expiry_unix as u64)));
    }
    let e1 = p1.expiry_unix;
    let e2 = p2.expiry_unix;
    assert(e1 == e2) by (bit_vector)
        requires
            e1 as u64 == e2 as u64,
    ;
    lemma_concat_cancel(
        spec_u32_to_le_bytes(p1.scopes@.len() as u32),
        spec_scopes_bytes(scopes1),
        spec_u32_to_le_bytes(p2.scopes@.len() as u32),
        spec_scopes_bytes(scopes2),
    );
    assert(p1.scopes@.len() == p2.scopes@.len()) by {
        assert(spec_u32_from_le_bytes(spec_u32_to_le_bytes(p1.scopes@.len() as u32))
            == spec_u32_from_le_bytes(spec_u32_to_le_bytes(p2.scopes@.len() as u32)));
    }
    assert(scopes1.len() == p1.scopes@.len());
    assert(scopes2.len() == p2.scopes@.len());
    assert forall|i: int| 0 <= i < scopes1.len() implies (#[trigger] scopes1[i]).len()
        <= u32::MAX by {
        assert(scopes1[i] =~= p1.scopes@[i]@);
    }
    assert forall|i: int| 0 <= i < scopes2.len() implies (#[trigger] scopes2[i]).len()
        <= u32::MAX by {
        assert(scopes2[i] =~= p2.scopes@[i]@);
    }
    lemma_scopes_bytes_injective(scopes1, scopes2);
}

/// Builds and verifies delegation capabilities, and records the approved
/// ones.
pub struct DelegationManager {}

impl DelegationManager {
    pub fn new() -> (m: Self)
    {
        DelegationManager {}
    }

    /// Assemble a capability: the caller's terms, a fresh random nonce, and
    /// an expiry stamped `now + ttl`.
    pub fn build_payload(
        &self,
        parent: Vec<u8>,
        session_id: u128,
        vault: Vec<u8>,
        approved_amount: u64,
        ttl_seconds: i64,
        scopes: Vec<Vec<u8>>,
        now: i64,
    ) -> (p: DelegationPayload)
        requires
            is_wallet_key(parent@),
            vault@.len() <= u32::MAX,
            scopes@.len() <= u32::MAX,
            forall|i: int| 0 <= i < scopes@.len() ==> (#[trigger] scopes@[i])@.len() <= u32::MAX,
            0 <= now,
            0 <= ttl_seconds,
            now + ttl_seconds <= i64::MAX,
        ensures
            p.wf(),
            p.parent@ == parent@,
            p.session_id == session_id,
            p.vault@ == vault@,
            p.approved_amount == approved_amount,
            p.expiry_unix == now + ttl_seconds,
            p.scopes@ == scopes@,
    {
        DelegationPayload {
            parent,
            session_id,
            vault,
            approved_amount,
            nonce: random_u64(),
            expiry_unix: now + ttl_seconds,
            scopes,
        }
    }

    /// The canonical byte encoding of `payload`, used both for signing and
    /// for verification. Deterministic: the bytes depend on the field
    /// values alone.
    pub fn payload_bytes(payload: &DelegationPayload) -> (r: Vec<u8>)
        requires
            payload.wf(),
        ensures
            r@ == spec_payload_bytes(payload),
    {
        let mut out: Vec<u8> = Vec::new();
        append_bytes(&mut out, &payload.parent);
        let mut field = u128_to_le_bytes(payload.session_id);
        out.append(&mut field);
        let mut field = u32_to_le_bytes(payload.vault.len() as u32);
        out.append(&mut field);
        append_bytes(&mut out, &payload.vault);
        let mut field = u64_to_le_bytes(payload.approved_amount);
        out.append(&mut field);
        let mut field = u64_to_le_bytes(payload.nonce);
        out.append(&mut field);
        let mut field = u64_to_le_bytes(payload.expiry_unix as u64);
        out.append(&mut field);
        let mut field = u32_to_le_bytes(payload.scopes.len() as u32);
        out.append(&mut field);
        let ghost head = out@;
        let n = payload.scopes.len();
        let mut i: usize = 0;
        while i < n
            invariant
                n == payload.scopes@.len(),
                i <= n,
                forall|j: int|
                    0 <= j < n ==> (#[trigger] payload.scopes@[j])@.len() <= u32::MAX,
                out@ == head + spec_scopes_bytes(payload.scopes.deep_view().subrange(0, i as int)),
            decreases n - i,
        {
            let mut len_prefix = u32_to_le_bytes(payload.scopes[i].len() as u32);
            out.append(&mut len_prefix);
            append_bytes(&mut out, &payload.scopes[i]);
            proof {
                let scopes = payload.scopes.deep_view();
                lemma_scopes_bytes_push(scopes.subrange(0, i as int), scopes[i as int]);
                assert(scopes.subrange(0, i as int).push(scopes[i as int])
                    =~= scopes.subrange(0, i + 1 as int));
            }
            i = i + 1;
        }
        proof {
            assert(payload.scopes.deep_view().subrange(0, n as int)
                =~= payload.scopes.deep_view());
        }
        out
    }

    /// Check an ed25519 signature by `signer` over `message`. Succeeds
    /// exactly when the scheme accepts the triple; anything else fails with
    /// `InvalidSignature`.
    pub fn verify_signature(message: &Vec<u8>, sig_bytes: &Vec<u8>, signer: &Vec<u8>) -> (r: Result<
        (),
        VaultError,
    >)
        ensures
            r is Ok <==> ed25519_verifies(signer@, message@, sig_bytes@),
            r matches Err(e) ==> e == VaultError::InvalidSignature,
    {
        if ed25519_verify(signer, message, sig_bytes) {
            Result::Ok(())
        } else {
            Result::Err(VaultError::InvalidSignature)
        }
    }

    /// Verify a capability end to end: the claimed signer must be the
    /// session's recorded parent wallet, must be the parent the capability
    /// names, and must have signed the canonical bytes. Anything else fails
    /// with `InvalidSignature`.
    pub fn verify_capability(
        &self,
        payload: &DelegationPayload,
        sig_bytes: &Vec<u8>,
        claimed_signer: &Vec<u8>,
        recorded_parent: &Vec<u8>,
    ) -> (r: Result<(), VaultError>)
        requires
            payload.wf(),
        ensures
            r is Ok <==> {
                &&& claimed_signer@ == recorded_parent@
                &&& claimed_signer@ == payload.parent@
                &&& ed25519_verifies(claimed_signer@, spec_payload_bytes(payload), sig_bytes@)
            },
            r matches Err(e) ==> e == VaultError::InvalidSignature,
    {
        if !bytes_eq(claimed_signer, recorded_parent) {
            return Result::Err(VaultError::InvalidSignature);
        }
        if !bytes_eq(claimed_signer, &payload.parent) {
            return Result::Err(VaultError::InvalidSignature);
        }
        let message = Self::payload_bytes(payload);
        Self::verify_signature(&message, sig_bytes, claimed_signer)
    }

    /// Record a verified delegation on the session row: to be called only
    /// after `verify_capability` succeeded. The on-ledger
    /// `approve_delegate` instruction is submitted separately so the cap is
    /// enforced on the ledger, not only off chain.
    pub fn activate_delegation(
        &self,
        store: &mut SessionStore,
        session_id: u128,
        delegate_pubkey: Vec<u8>,
        approved_amount: u64,
        expiry_unix: i64,
    ) -> (r: Result<(), VaultError>)
        requires
            old(store).wf(),
            is_wallet_key(delegate_pubkey@),
        ensures
            final(store).wf(),
            r is Err ==> *final(store) == *old(store),
            r is Ok <==> (match crate::session::spec_find_session(old(store).sessions@, session_id) {
                Option::Some(i) => old(store).sessions@[i].total_deposited <= approved_amount
                    && old(store).sessions@[i].created_at < expiry_unix,
                Option::None => false,
            }),
            r is Ok ==> (match crate::session::spec_find_session(old(store).sessions@, session_id) {
                Option::Some(i) => {
                    &&& final(store).sessions@.len() == old(store).sessions@.len()
                    &&& final(store).sessions@[i].spec_delegate()
                        == Option::Some(delegate_pubkey@)
                    &&& final(store).sessions@[i].delegate_approved
                    &&& final(store).sessions@[i].approved_amount == approved_amount
                    &&& final(store).sessions@[i].expires_at == expiry_unix
                    &&& forall|j: int|
                        0 <= j < old(store).sessions@.len() && j != i
                            ==> final(store).sessions@[j] == old(store).sessions@[j]
                },
                Option::None => false,
            }),
    {
        let ghost before = store.sessions@;
        let r = store.set_delegation(session_id, delegate_pubkey, approved_amount, expiry_unix);
        proof {
            crate::session::lemma_find_session_props(before, session_id);
        }
        r
    }
}

} // verus!

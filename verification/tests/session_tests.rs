use ephemeral_vault::errors::VaultError;
use ephemeral_vault::keys::derive_vault_address;
use ephemeral_vault::manager::SessionManager;
use ephemeral_vault::session::{EphemeralSession, EphemeralSessionCreateResponse, SessionStore};

fn sealing_key() -> Vec<u8> {
    vec![9u8; 32]
}

fn parent_a() -> Vec<u8> {
    vec![11u8; 32]
}

fn parent_b() -> Vec<u8> {
    vec![12u8; 32]
}

fn delegate_key() -> Vec<u8> {
    vec![13u8; 32]
}

#[test]
fn create_session_persists_one_active_row() {
    let manager = SessionManager::new(sealing_key());
    let mut store = SessionStore::new();
    let session = manager
        .create_session(&mut store, parent_a(), 1_000_000, 900, 1_700_000_000)
        .unwrap();
    assert!(session.active);
    assert_eq!(session.parent_wallet, parent_a());
    assert_eq!(session.vault_address, derive_vault_address(&parent_a()));
    assert_eq!(session.created_at, 1_700_000_000);
    assert_eq!(session.expires_at, 1_700_000_900);
    assert_eq!(session.total_deposited, 0);
    assert_eq!(store.sessions.len(), 1);
    assert!(store.has_active_session(&parent_a()));
}

#[test]
fn second_create_for_same_parent_is_rejected() {
    let manager = SessionManager::new(sealing_key());
    let mut store = SessionStore::new();
    manager
        .create_session(&mut store, parent_a(), 1000, 900, 100)
        .unwrap();
    let second = manager.create_session(&mut store, parent_a(), 1000, 900, 101);
    assert_eq!(second.unwrap_err(), VaultError::ActiveSessionExists);
    // Exactly one active row remains for the parent.
    let active_rows = store
        .sessions
        .iter()
        .filter(|s| s.active && s.parent_wallet == parent_a())
        .count();
    assert_eq!(active_rows, 1);
}

#[test]
fn distinct_parents_hold_sessions_side_by_side() {
    let manager = SessionManager::new(sealing_key());
    let mut store = SessionStore::new();
    manager.create_session(&mut store, parent_a(), 1, 900, 100).unwrap();
    manager.create_session(&mut store, parent_b(), 2, 900, 100).unwrap();
    assert_eq!(store.sessions.len(), 2);
    assert!(store.has_active_session(&parent_a()));
    assert!(store.has_active_session(&parent_b()));
}

#[test]
fn created_key_reloads_and_matches_the_ephemeral_wallet() {
    let manager = SessionManager::new(sealing_key());
    let mut store = SessionStore::new();
    let session = manager.create_session(&mut store, parent_a(), 1, 900, 100).unwrap();
    let secret = manager.load_keypair(&session).unwrap();
    assert_eq!(secret.len(), 32);
    let secret_bytes: [u8; 32] = secret.as_slice().try_into().unwrap();
    let signing_key = ed25519_dalek::SigningKey::from_bytes(&secret_bytes);
    assert_eq!(
        signing_key.verifying_key().to_bytes().to_vec(),
        session.ephemeral_wallet
    );
}

#[test]
fn load_keypair_rejects_foreign_blobs() {
    let manager = SessionManager::new(sealing_key());
    let other = SessionManager::new(vec![10u8; 32]);
    let mut store = SessionStore::new();
    let session = manager.create_session(&mut store, parent_a(), 1, 900, 100).unwrap();
    assert_eq!(
        other.load_keypair(&session).unwrap_err(),
        VaultError::DecryptionFailure
    );
}

#[test]
fn get_session_finds_by_identifier() {
    let manager = SessionManager::new(sealing_key());
    let mut store = SessionStore::new();
    let session = manager.create_session(&mut store, parent_a(), 1, 900, 100).unwrap();
    let fetched = store.get_session(session.id).unwrap();
    assert_eq!(fetched.id, session.id);
    assert_eq!(fetched.parent_wallet, session.parent_wallet);
    assert!(store.get_session(session.id.wrapping_add(1)).is_none());
}

#[test]
fn set_delegation_updates_the_row() {
    let manager = SessionManager::new(sealing_key());
    let mut store = SessionStore::new();
    let session = manager.create_session(&mut store, parent_a(), 1000, 900, 100).unwrap();
    store
        .set_delegation(session.id, delegate_key(), 2000, 5000)
        .unwrap();
    let row = store.get_session(session.id).unwrap();
    assert_eq!(row.delegate_pubkey, Some(delegate_key()));
    assert!(row.delegate_approved);
    assert_eq!(row.approved_amount, 2000);
    assert_eq!(row.expires_at, 5000);
}

#[test]
fn set_delegation_error_cases() {
    let manager = SessionManager::new(sealing_key());
    let mut store = SessionStore::new();
    let session = manager.create_session(&mut store, parent_a(), 1000, 900, 100).unwrap();
    assert_eq!(
        store
            .set_delegation(session.id.wrapping_add(1), delegate_key(), 10, 5000)
            .unwrap_err(),
        VaultError::NotFound
    );
    store.record_deposit(session.id, 500).unwrap();
    // A new cap below what was already deposited is refused.
    assert_eq!(
        store.set_delegation(session.id, delegate_key(), 499, 5000).unwrap_err(),
        VaultError::OverDeposit
    );
    // An expiry not after creation is refused.
    assert_eq!(
        store.set_delegation(session.id, delegate_key(), 1000, 100).unwrap_err(),
        VaultError::SessionExpired
    );
}

#[test]
fn record_deposit_enforces_the_cap() {
    let manager = SessionManager::new(sealing_key());
    let mut store = SessionStore::new();
    let session = manager.create_session(&mut store, parent_a(), 1000, 900, 100).unwrap();
    assert_eq!(store.record_deposit(session.id, 600).unwrap(), 600);
    assert_eq!(
        store.record_deposit(session.id, 500).unwrap_err(),
        VaultError::OverDeposit
    );
    assert_eq!(store.record_deposit(session.id, 400).unwrap(), 1000);
    assert_eq!(
        store.record_deposit(session.id.wrapping_add(1), 1).unwrap_err(),
        VaultError::NotFound
    );
}

#[test]
fn end_session_is_idempotent() {
    let manager = SessionManager::new(sealing_key());
    let mut store = SessionStore::new();
    let session = manager.create_session(&mut store, parent_a(), 1, 900, 100).unwrap();
    store.end_session(session.id).unwrap();
    assert!(!store.get_session(session.id).unwrap().active);
    // Ending an already ended session is a no-op, not an error.
    store.end_session(session.id).unwrap();
    assert!(!store.get_session(session.id).unwrap().active);
    assert_eq!(
        store.end_session(session.id.wrapping_add(1)).unwrap_err(),
        VaultError::NotFound
    );
}

#[test]
fn ended_session_frees_the_parent_for_a_new_one() {
    let manager = SessionManager::new(sealing_key());
    let mut store = SessionStore::new();
    let session = manager.create_session(&mut store, parent_a(), 1, 900, 100).unwrap();
    store.end_session(session.id).unwrap();
    manager.create_session(&mut store, parent_a(), 1, 900, 200).unwrap();
    assert_eq!(store.sessions.len(), 2);
}

#[test]
fn cleanup_expired_flags_only_expired_rows() {
    let manager = SessionManager::new(sealing_key());
    let mut store = SessionStore::new();
    let expired = manager.create_session(&mut store, parent_a(), 1, 100, 1000).unwrap();
    let live = manager.create_session(&mut store, parent_b(), 1, 10_000, 1000).unwrap();
    manager.cleanup_expired(&mut store, 1100);
    assert!(!store.get_session(expired.id).unwrap().active);
    assert!(store.get_session(live.id).unwrap().active);
    // A second sweep at the same clock changes nothing.
    manager.cleanup_expired(&mut store, 1100);
    assert!(!store.get_session(expired.id).unwrap().active);
    assert!(store.get_session(live.id).unwrap().active);
}

#[test]
fn creation_response_carries_no_key_material() {
    let manager = SessionManager::new(sealing_key());
    let mut store = SessionStore::new();
    let session = manager.create_session(&mut store, parent_a(), 1, 900, 100).unwrap();
    let session_id = session.id;
    let expires = session.expires_at;
    let response = EphemeralSessionCreateResponse::from(session);
    assert_eq!(response.id, session_id);
    assert_eq!(response.parent_wallet, parent_a());
    assert_eq!(response.expires_at, expires);
}

#[test]
fn session_rows_clone_field_for_field() {
    let row = EphemeralSession::new(parent_a(), parent_b(), vec![1, 2, 3], 77, 10, 5);
    let copy = row.clone();
    assert_eq!(copy.id, row.id);
    assert_eq!(copy.parent_wallet, row.parent_wallet);
    assert_eq!(copy.encrypted_key, row.encrypted_key);
    assert_eq!(copy.expires_at, row.expires_at);
    assert_eq!(copy.active, row.active);
}

#[test]
fn empty_store_has_nothing() {
    let mut store = SessionStore::new();
    assert!(!store.has_active_session(&parent_a()));
    assert!(store.get_session(1).is_none());
    assert_eq!(store.end_session(1).unwrap_err(), VaultError::NotFound);
    store.deactivate_expired(0);
    assert!(store.sessions.is_empty());
}

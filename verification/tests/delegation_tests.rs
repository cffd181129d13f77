use ed25519_dalek::Signer;
use ephemeral_vault::delegation::{DelegationManager, DelegationPayload};
use ephemeral_vault::errors::VaultError;
use ephemeral_vault::manager::SessionManager;
use ephemeral_vault::session::SessionStore;

fn signing_key() -> ed25519_dalek::SigningKey {
    ed25519_dalek::SigningKey::from_bytes(&[42u8; 32])
}

fn other_signing_key() -> ed25519_dalek::SigningKey {
    ed25519_dalek::SigningKey::from_bytes(&[43u8; 32])
}

fn parent_of(key: &ed25519_dalek::SigningKey) -> Vec<u8> {
    key.verifying_key().to_bytes().to_vec()
}

fn sample_payload(parent: Vec<u8>) -> DelegationPayload {
    let manager = DelegationManager::new();
    manager.build_payload(
        parent,
        7,
        vec![5u8; 37],
        1_000_000,
        3600,
        vec![b"trade".to_vec(), b"deposit".to_vec()],
        1_700_000_000,
    )
}

#[test]
fn build_payload_stamps_expiry_from_ttl() {
    let payload = sample_payload(parent_of(&signing_key()));
    assert_eq!(payload.expiry_unix, 1_700_000_000 + 3600);
    assert_eq!(payload.approved_amount, 1_000_000);
    assert_eq!(payload.session_id, 7);
    assert_eq!(payload.scopes.len(), 2);
}

#[test]
fn payload_nonces_differ_between_builds() {
    let parent = parent_of(&signing_key());
    let one = sample_payload(parent.clone());
    let two = sample_payload(parent);
    assert_ne!(one.nonce, two.nonce);
}

#[test]
fn canonical_bytes_are_deterministic() {
    let payload = sample_payload(parent_of(&signing_key()));
    assert_eq!(
        DelegationManager::payload_bytes(&payload),
        DelegationManager::payload_bytes(&payload)
    );
}

#[test]
fn canonical_bytes_separate_different_payloads() {
    let parent = parent_of(&signing_key());
    let base = sample_payload(parent.clone());
    let mut other = sample_payload(parent);
    other.nonce = base.nonce.wrapping_add(1);
    other.approved_amount = base.approved_amount;
    let mut same_fields = DelegationPayload {
        parent: base.parent.clone(),
        session_id: base.session_id,
        vault: base.vault.clone(),
        approved_amount: base.approved_amount,
        nonce: base.nonce,
        expiry_unix: base.expiry_unix,
        scopes: base.scopes.clone(),
    };
    assert_ne!(
        DelegationManager::payload_bytes(&base),
        DelegationManager::payload_bytes(&other)
    );
    assert_eq!(
        DelegationManager::payload_bytes(&base),
        DelegationManager::payload_bytes(&same_fields)
    );
    same_fields.scopes = vec![b"tradedeposit".to_vec()];
    assert_ne!(
        DelegationManager::payload_bytes(&base),
        DelegationManager::payload_bytes(&same_fields)
    );
}

#[test]
fn good_signature_verifies() {
    let key = signing_key();
    let parent = parent_of(&key);
    let payload = sample_payload(parent.clone());
    let message = DelegationManager::payload_bytes(&payload);
    let signature = key.sign(&message).to_bytes().to_vec();
    assert!(DelegationManager::verify_signature(&message, &signature, &parent).is_ok());
    let manager = DelegationManager::new();
    assert!(manager.verify_capability(&payload, &signature, &parent, &parent).is_ok());
}

#[test]
fn tampered_message_fails_verification() {
    let key = signing_key();
    let parent = parent_of(&key);
    let payload = sample_payload(parent.clone());
    let message = DelegationManager::payload_bytes(&payload);
    let signature = key.sign(&message).to_bytes().to_vec();
    for position in 0..message.len() {
        let mut tampered = message.clone();
        tampered[position] ^= 0x01;
        assert_eq!(
            DelegationManager::verify_signature(&tampered, &signature, &parent).unwrap_err(),
            VaultError::InvalidSignature
        );
    }
}

#[test]
fn non_matching_key_fails_verification() {
    let key = signing_key();
    let wrong = other_signing_key();
    let parent = parent_of(&key);
    let payload = sample_payload(parent.clone());
    let message = DelegationManager::payload_bytes(&payload);
    let forged = wrong.sign(&message).to_bytes().to_vec();
    assert_eq!(
        DelegationManager::verify_signature(&message, &forged, &parent).unwrap_err(),
        VaultError::InvalidSignature
    );
    // The forger's own key is not the recorded parent.
    let manager = DelegationManager::new();
    assert_eq!(
        manager
            .verify_capability(&payload, &forged, &parent_of(&wrong), &parent)
            .unwrap_err(),
        VaultError::InvalidSignature
    );
}

#[test]
fn tampered_signature_fails_verification() {
    let key = signing_key();
    let parent = parent_of(&key);
    let message = DelegationManager::payload_bytes(&sample_payload(parent.clone()));
    let mut signature = key.sign(&message).to_bytes().to_vec();
    signature[10] ^= 0x80;
    assert_eq!(
        DelegationManager::verify_signature(&message, &signature, &parent).unwrap_err(),
        VaultError::InvalidSignature
    );
}

#[test]
fn malformed_keys_and_signatures_fail_cleanly() {
    let message = vec![1u8, 2, 3];
    let short_signer = vec![0u8; 31];
    let good_len_signer = vec![0u8; 32];
    let short_signature = vec![0u8; 63];
    let zero_signature = vec![0u8; 64];
    assert!(DelegationManager::verify_signature(&message, &short_signature, &good_len_signer)
        .is_err());
    assert!(DelegationManager::verify_signature(&message, &zero_signature, &short_signer)
        .is_err());
    assert!(DelegationManager::verify_signature(&message, &zero_signature, &good_len_signer)
        .is_err());
}

#[test]
fn activation_after_verification_updates_the_session() {
    let key = signing_key();
    let parent = parent_of(&key);
    let session_manager = SessionManager::new(vec![4u8; 32]);
    let mut store = SessionStore::new();
    let session = session_manager
        .create_session(&mut store, parent.clone(), 1000, 900, 100)
        .unwrap();
    let delegation_manager = DelegationManager::new();
    let payload = delegation_manager.build_payload(
        parent.clone(),
        session.id,
        session.vault_address.clone(),
        2000,
        3600,
        vec![b"trade".to_vec()],
        100,
    );
    let message = DelegationManager::payload_bytes(&payload);
    let signature = key.sign(&message).to_bytes().to_vec();
    delegation_manager
        .verify_capability(&payload, &signature, &parent, &parent)
        .unwrap();
    delegation_manager
        .activate_delegation(&mut store, session.id, vec![13u8; 32], 2000, 3700)
        .unwrap();
    let row = store.get_session(session.id).unwrap();
    assert!(row.delegate_approved);
    assert_eq!(row.delegate_pubkey, Some(vec![13u8; 32]));
    assert_eq!(row.approved_amount, 2000);
    assert_eq!(row.expires_at, 3700);
}

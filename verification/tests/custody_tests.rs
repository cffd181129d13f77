use ephemeral_vault::custody::{encrypt_bytes, decrypt_bytes, KeyCustodian};
use ephemeral_vault::errors::VaultError;

fn key_a() -> Vec<u8> {
    vec![7u8; 32]
}

fn key_b() -> Vec<u8> {
    vec![8u8; 32]
}

#[test]
fn encrypt_decrypt_round_trip() {
    let custodian = KeyCustodian::new(key_a());
    let plaintext: Vec<u8> = (0u8..64).collect();
    let blob = custodian.encrypt(&plaintext);
    assert_eq!(blob.len(), plaintext.len() + 12 + 16);
    let opened = custodian.decrypt(&blob).unwrap();
    assert_eq!(opened, plaintext);
}

#[test]
fn round_trip_demonstrator_returns_input() {
    let custodian = KeyCustodian::new(key_a());
    let plaintext = b"ephemeral signing key material".to_vec();
    assert_eq!(custodian.encrypt_then_decrypt(&plaintext), plaintext);
}

#[test]
fn empty_plaintext_round_trips() {
    let custodian = KeyCustodian::new(key_a());
    let blob = custodian.encrypt(&Vec::new());
    assert_eq!(blob.len(), 28);
    assert_eq!(custodian.decrypt(&blob).unwrap(), Vec::<u8>::new());
}

#[test]
fn ciphertext_is_not_the_plaintext() {
    let custodian = KeyCustodian::new(key_a());
    let plaintext = vec![42u8; 48];
    let blob = custodian.encrypt(&plaintext);
    assert_ne!(&blob[12..12 + 48], plaintext.as_slice());
}

#[test]
fn wrong_key_fails_decryption() {
    let sealer = KeyCustodian::new(key_a());
    let other = KeyCustodian::new(key_b());
    let blob = sealer.encrypt(&vec![1u8, 2, 3, 4]);
    assert_eq!(other.decrypt(&blob), Err(VaultError::DecryptionFailure));
}

#[test]
fn tampered_blob_fails_decryption() {
    let custodian = KeyCustodian::new(key_a());
    let blob = custodian.encrypt(&vec![9u8; 40]);
    for position in 0..blob.len() {
        let mut tampered = blob.clone();
        tampered[position] ^= 0x01;
        assert_eq!(custodian.decrypt(&tampered), Err(VaultError::DecryptionFailure));
    }
}

#[test]
fn truncated_blob_fails_decryption() {
    let custodian = KeyCustodian::new(key_a());
    let blob = custodian.encrypt(&vec![5u8; 16]);
    let truncated = blob[..27].to_vec();
    assert_eq!(custodian.decrypt(&truncated), Err(VaultError::DecryptionFailure));
    let mut shortened = blob.clone();
    shortened.pop();
    assert_eq!(custodian.decrypt(&shortened), Err(VaultError::DecryptionFailure));
}

#[test]
fn nonces_are_unique_per_call() {
    let secret = key_a();
    let plaintext = vec![3u8; 32];
    let (nonce1, sealed1) = encrypt_bytes(&secret, &plaintext);
    let (nonce2, sealed2) = encrypt_bytes(&secret, &plaintext);
    assert_eq!(nonce1.len(), 12);
    assert_eq!(nonce2.len(), 12);
    assert_ne!(nonce1, nonce2);
    assert_ne!(sealed1, sealed2);
}

#[test]
fn nonce_and_ciphertext_pair_round_trips() {
    let secret = key_a();
    let plaintext = vec![0xAAu8; 20];
    let (nonce, sealed) = encrypt_bytes(&secret, &plaintext);
    assert_eq!(sealed.len(), plaintext.len() + 16);
    assert_eq!(decrypt_bytes(&secret, &nonce, &sealed).unwrap(), plaintext);
}

#[test]
fn blob_nonce_uniqueness_makes_blobs_differ() {
    let custodian = KeyCustodian::new(key_a());
    let plaintext = vec![1u8; 8];
    let blob1 = custodian.encrypt(&plaintext);
    let blob2 = custodian.encrypt(&plaintext);
    assert_ne!(blob1[..12], blob2[..12]);
}

use ephemeral_vault::errors::VaultError;
use ephemeral_vault::keys::{bytes_eq, derive_vault_address};
use ephemeral_vault::retry::{RetryDecision, SubmitOutcome};
use ephemeral_vault::signer::TransactionSigner;

fn sealing_key() -> Vec<u8> {
    vec![21u8; 32]
}

#[test]
fn signer_reloads_only_its_own_blobs() {
    let signer = TransactionSigner::new(sealing_key());
    let secret = vec![77u8; 32];
    let blob = signer.custodian.encrypt(&secret);
    assert_eq!(signer.decrypt_keypair(&blob).unwrap(), secret);
    let foreign = TransactionSigner::new(vec![22u8; 32]);
    assert_eq!(
        foreign.decrypt_keypair(&blob).unwrap_err(),
        VaultError::DecryptionFailure
    );
    assert_eq!(
        signer.decrypt_keypair(&vec![0u8; 5]).unwrap_err(),
        VaultError::DecryptionFailure
    );
}

#[test]
fn signer_uses_the_standard_retry_policy() {
    let signer = TransactionSigner::new(sealing_key());
    assert_eq!(
        signer.next_step(0, SubmitOutcome::Transient),
        RetryDecision::RetryAfter(200)
    );
    assert_eq!(signer.next_step(4, SubmitOutcome::Transient), RetryDecision::Exhausted);
    assert_eq!(signer.next_step(2, SubmitOutcome::Confirmed), RetryDecision::Done);
    assert_eq!(signer.next_step(2, SubmitOutcome::Fatal), RetryDecision::Abort);
}

#[test]
fn vault_addresses_are_deterministic_and_distinct() {
    let parent_one = vec![1u8; 32];
    let parent_two = vec![2u8; 32];
    let addr_one = derive_vault_address(&parent_one);
    assert_eq!(addr_one, derive_vault_address(&parent_one));
    assert_ne!(addr_one, derive_vault_address(&parent_two));
    assert_eq!(addr_one.len(), 37);
    assert_eq!(&addr_one[..5], b"vault");
}

#[test]
fn byte_comparison_is_exact() {
    assert!(bytes_eq(&vec![1, 2, 3], &vec![1, 2, 3]));
    assert!(!bytes_eq(&vec![1, 2, 3], &vec![1, 2, 4]));
    assert!(!bytes_eq(&vec![1, 2, 3], &vec![1, 2]));
    assert!(bytes_eq(&Vec::new(), &Vec::new()));
}

#[test]
fn error_labels_are_stable() {
    assert_eq!(VaultError::OverDeposit.label(), "deposit exceeds approved limit");
    assert_eq!(VaultError::DecryptionFailure.label(), "decryption failure");
    assert_eq!(VaultError::SubmissionExhausted.label(), "submission retries exhausted");
}

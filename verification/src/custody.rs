//! Ephemeral-key custody: minting signing identities and sealing their
//! private material at rest.
//!
//! Private keys are encrypted under a process-wide sealing key with an
//! authenticated cipher. The stored blob is `nonce ‖ ciphertext ‖ tag`, with
//! a 12-byte nonce drawn fresh from the operating system's entropy source on
//! every call — a reused nonce under one sealing key would be a
//! confidentiality break, so no nonce is ever fixed or counted. Decrypted
//! material is returned to the caller's stack frame only; nothing here
//! caches it.

use vstd::prelude::*;
use aes_gcm::KeyInit;
use aes_gcm::aead::Aead;
use rand::RngCore;
use crate::errors::VaultError;

verus! {

/// Byte length of the sealing key (a 256-bit AEAD key).
pub const SEALING_KEY_LEN: usize = 32;

/// Byte length of the nonce prepended to every sealed blob.
pub const NONCE_LEN: usize = 12;

/// Byte length of the authentication tag appended to every sealed blob.
pub const TAG_LEN: usize = 16;

/// Longest plaintext the cipher accepts (2^36 bytes).
pub const MAX_PLAINTEXT_LEN: u64 = 0x10_0000_0000;

/// The ciphertext-with-tag that AES-256-GCM produces from a key, a nonce and
/// a plaintext. Deterministic in its three arguments; its value is fixed by
/// the cipher, not restated here.
pub uninterp spec fn seal_of(key: Seq<u8>, nonce: Seq<u8>, plaintext: Seq<u8>) -> Seq<u8>;

/// Relies on rand's `OsRng::fill_bytes`: fills a buffer from the operating
/// system's entropy source. Nothing is promised of the values drawn.
#[verifier::external_body]
fn random_bytes(n: usize) -> (r: Vec<u8>)
    ensures
        r@.len() == n,
{
    let mut buf = vec![0u8; n];
    rand::rngs::OsRng.fill_bytes(&mut buf);
    buf
}

/// Relies on aes_gcm's `Aes256Gcm` encryption (the `Aead::encrypt` path):
/// deterministic in key, nonce and plaintext; the result is the ciphertext
/// followed by the 16-byte tag; the only rejected input is a plaintext
/// longer than 2^36 bytes, which the precondition excludes.
#[verifier::external_body]
fn aead_seal(key: &Vec<u8>, nonce: &Vec<u8>, plaintext: &Vec<u8>) -> (r: Vec<u8>)
    requires
        key@.len() == SEALING_KEY_LEN,
        nonce@.len() == NONCE_LEN,
        plaintext@.len() <= MAX_PLAINTEXT_LEN,
    ensures
        r@ == seal_of(key@, nonce@, plaintext@),
        r@.len() == plaintext@.len() + TAG_LEN,
{
    let cipher = aes_gcm::Aes256Gcm::new(aes_gcm::Key::<aes_gcm::Aes256Gcm>::from_slice(key));
    cipher.encrypt(aes_gcm::Nonce::from_slice(nonce), plaintext.as_slice()).unwrap()
}

/// Relies on aes_gcm's `Aes256Gcm` decryption (the `Aead::decrypt` path):
/// it accepts exactly the outputs of the seal under the same key and nonce,
/// returning the plaintext that was sealed, and rejects everything else by
/// the tag check.
#[verifier::external_body]
fn aead_open(key: &Vec<u8>, nonce: &Vec<u8>, ciphertext: &Vec<u8>) -> (r: Option<Vec<u8>>)
    requires
        key@.len() == SEALING_KEY_LEN,
        nonce@.len() == NONCE_LEN,
    ensures
        match r {
            Option::Some(p) => {
                &&& ciphertext@ == seal_of(key@, nonce@, p@)
                &&& p@.len() + TAG_LEN == ciphertext@.len()
                &&& forall|q: Seq<u8>|
                    q.len() <= MAX_PLAINTEXT_LEN && ciphertext@ == #[trigger] seal_of(key@, nonce@, q)
                        ==> p@ == q
            },
            Option::None => forall|q: Seq<u8>|
                q.len() <= MAX_PLAINTEXT_LEN ==> ciphertext@ != #[trigger] seal_of(key@, nonce@, q),
        },
{
    let cipher = aes_gcm::Aes256Gcm::new(aes_gcm::Key::<aes_gcm::Aes256Gcm>::from_slice(key));
    match cipher.decrypt(aes_gcm::Nonce::from_slice(nonce), ciphertext.as_slice()) {
        Ok(plain) => Some(plain),
        Err(_) => None,
    }
}

/// Relies on ed25519_dalek's `SigningKey::generate` over the OS RNG, with
/// `to_bytes` and `verifying_key`: a fresh signing identity as its 32-byte
/// secret seed and 32-byte public key. Nothing is promised of the values.
#[verifier::external_body]
pub(crate) fn generate_keypair() -> (r: (Vec<u8>, Vec<u8>))
    ensures
        r.0@.len() == 32,
        r.1@.len() == 32,
{
    let sk = ed25519_dalek::SigningKey::generate(&mut rand::rngs::OsRng);
    let pk = sk.verifying_key();
    (sk.to_bytes().to_vec(), pk.to_bytes().to_vec())
}

/// Encrypt `data` under `secret`, drawing a fresh random nonce. Returns the
/// nonce and the ciphertext-with-tag separately.
pub fn encrypt_bytes(secret: &Vec<u8>, data: &Vec<u8>) -> (r: (Vec<u8>, Vec<u8>))
    requires
        secret@.len() == SEALING_KEY_LEN,
        data@.len() <= MAX_PLAINTEXT_LEN,
    ensures
        r.0@.len() == NONCE_LEN,
        r.1@ == seal_of(secret@, r.0@, data@),
        r.1@.len() == data@.len() + TAG_LEN,
{
    let nonce = random_bytes(NONCE_LEN);
    let sealed = aead_seal(secret, &nonce, data);
    (nonce, sealed)
}

/// Decrypt a ciphertext-with-tag under `secret` and the nonce it was sealed
/// with. Fails with `DecryptionFailure` exactly when the bytes are not a
/// seal under this key and nonce — wrong key, truncation, or tampering.
pub fn decrypt_bytes(secret: &Vec<u8>, nonce: &Vec<u8>, encrypted: &Vec<u8>) -> (r: Result<
    Vec<u8>,
    VaultError,
>)
    requires
        secret@.len() == SEALING_KEY_LEN,
        nonce@.len() == NONCE_LEN,
    ensures
        r matches Ok(p) ==> {
            &&& encrypted@ == seal_of(secret@, nonce@, p@)
            &&& p@.len() + TAG_LEN == encrypted@.len()
            &&& forall|q: Seq<u8>|
                q.len() <= MAX_PLAINTEXT_LEN && encrypted@ == #[trigger] seal_of(secret@, nonce@, q)
                    ==> p@ == q
        },
        r matches Err(e) ==> {
            &&& e == VaultError::DecryptionFailure
            &&& forall|q: Seq<u8>|
                q.len() <= MAX_PLAINTEXT_LEN ==> encrypted@ != #[trigger] seal_of(secret@, nonce@, q)
        },
{
    match aead_open(secret, nonce, encrypted) {
        Option::Some(p) => Result::Ok(p),
        Option::None => Result::Err(VaultError::DecryptionFailure),
    }
}

/// Holds the process-wide sealing key and seals private key material into
/// self-contained `nonce ‖ ciphertext ‖ tag` blobs.
pub struct KeyCustodian {
    pub sealing_key: Vec<u8>,
}

impl KeyCustodian {
    /// A custodian is well formed when its sealing key has the AEAD key length.
    pub open spec fn wf(&self) -> bool {
        self.sealing_key@.len() == SEALING_KEY_LEN
    }

    /// Whether `blob` is a well-formed sealed blob for `plaintext` under
    /// this custodian's key: its first bytes are the nonce, the rest the
    /// seal of the plaintext under that nonce.
    pub open spec fn spec_sealed(&self, blob: Seq<u8>, plaintext: Seq<u8>) -> bool {
        &&& blob.len() >= NONCE_LEN + TAG_LEN
        &&& blob.subrange(NONCE_LEN as int, blob.len() as int)
            == seal_of(self.sealing_key@, blob.subrange(0, NONCE_LEN as int), plaintext)
    }

    pub fn new(sealing_key: Vec<u8>) -> (c: Self)
        requires
            sealing_key@.len() == SEALING_KEY_LEN,
        ensures
            c.wf(),
            c.sealing_key@ == sealing_key@,
    {
        KeyCustodian { sealing_key }
    }

    /// Seal `plaintext` into a self-contained blob under a fresh nonce.
    pub fn encrypt(&self, plaintext: &Vec<u8>) -> (blob: Vec<u8>)
        requires
            self.wf(),
            plaintext@.len() <= MAX_PLAINTEXT_LEN,
        ensures
            blob@.len() == plaintext@.len() + NONCE_LEN + TAG_LEN,
            self.spec_sealed(blob@, plaintext@),
    {
        let (nonce, sealed) = encrypt_bytes(&self.sealing_key, plaintext);
        let mut blob = nonce;
        let mut sealed = sealed;
        let ghost nonce_view = blob@;
        let ghost sealed_view = sealed@;
        blob.append(&mut sealed);
        proof {
            assert(blob@.subrange(0, NONCE_LEN as int) =~= nonce_view);
            assert(blob@.subrange(NONCE_LEN as int, blob@.len() as int) =~= sealed_view);
        }
        blob
    }

    /// Open a sealed blob. Fails with `DecryptionFailure` exactly when the
    /// blob is not a seal of any plaintext under this custodian's key —
    /// wrong key, truncation, or tampering.
    pub fn decrypt(&self, blob: &Vec<u8>) -> (r: Result<Vec<u8>, VaultError>)
        requires
            self.wf(),
        ensures
            r matches Ok(p) ==> {
                &&& self.spec_sealed(blob@, p@)
                &&& p@.len() + NONCE_LEN + TAG_LEN == blob@.len()
                &&& forall|q: Seq<u8>|
                    q.len() <= MAX_PLAINTEXT_LEN && #[trigger] self.spec_sealed(blob@, q) ==> p@ == q
            },
            r matches Err(e) ==> {
                &&& e == VaultError::DecryptionFailure
                &&& forall|q: Seq<u8>|
                    q.len() <= MAX_PLAINTEXT_LEN ==> !#[trigger] self.spec_sealed(blob@, q)
            },
    {
        if blob.len() < NONCE_LEN + TAG_LEN {
            return Result::Err(VaultError::DecryptionFailure);
        }
        let mut nonce: Vec<u8> = Vec::new();
        let mut i: usize = 0;
        while i < NONCE_LEN
            invariant
                i <= NONCE_LEN,
                blob@.len() >= NONCE_LEN + TAG_LEN,
                nonce@ == blob@.subrange(0, i as int),
            decreases NONCE_LEN - i,
        {
            nonce.push(blob[i]);
            proof {
                assert(nonce@ =~= blob@.subrange(0, i + 1 as int));
            }
            i = i + 1;
        }
        let mut ciphertext: Vec<u8> = Vec::new();
        let mut j: usize = NONCE_LEN;
        let n = blob.len();
        while j < n
            invariant
                NONCE_LEN <= j <= n,
                n == blob@.len(),
                blob@.len() >= NONCE_LEN + TAG_LEN,
                ciphertext@ == blob@.subrange(NONCE_LEN as int, j as int),
            decreases n - j,
        {
            ciphertext.push(blob[j]);
            proof {
                assert(ciphertext@ =~= blob@.subrange(NONCE_LEN as int, j + 1 as int));
            }
            j = j + 1;
        }
        decrypt_bytes(&self.sealing_key, &nonce, &ciphertext)
    }

    /// Law: sealing then opening under one custodian returns the plaintext
    /// unchanged, whatever nonce the sealing drew.
    pub fn encrypt_then_decrypt(&self, plaintext: &Vec<u8>) -> (r: Vec<u8>)
        requires
            self.wf(),
            plaintext@.len() <= MAX_PLAINTEXT_LEN,
        ensures
            r@ == plaintext@,
    {
        let blob = self.encrypt(plaintext);
        match self.decrypt(&blob) {
            Result::Ok(p) => p,
            Result::Err(_) => {
                proof {
                    assert(self.spec_sealed(blob@, plaintext@));
                    assert(false);
                }
                Vec::new()
            },
        }
    }
}

} // verus!

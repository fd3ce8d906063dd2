//! Authenticated encryption of payload bytes before they touch disk or the
//! network (AES-256-GCM from the `aes-gcm` crate), and the rules by which the
//! master key is read back from, or first written to, the OS keychain.
//!
//! A sealed blob is laid out as `nonce (12 bytes) ++ ciphertext ++ tag (16 bytes)`
//! so that decryption is self-contained.

use vstd::prelude::*;

use aes_gcm::aead::{Aead, AeadCore, KeyInit, OsRng};
use aes_gcm::{Aes256Gcm, Key, Nonce};

use crate::encoding::{hex_decode, hex_decode_text, hex_encode, hex_encode_bytes, lemma_hex_round_trip};
use crate::error::SentinelError;

verus! {

/// Length in bytes of the random nonce that starts every sealed blob.
pub const NONCE_LEN: usize = 12;

/// Length in bytes of the GCM authentication tag.
pub const TAG_LEN: usize = 16;

/// Length in bytes of the master key.
pub const KEY_LEN: usize = 32;

/// The longest plaintext AES-GCM accepts (the crate's `P_MAX`, 2^36 bytes).
pub const MAX_PLAINTEXT_LEN: u64 = 68719476736;

#[verifier::external_type_specification]
#[verifier::external_body]
pub struct ExAeadError(aes_gcm::Error);

/// The AES-256-GCM ciphertext (with its 16-byte tag appended) of `plaintext`
/// under `key` and `nonce`, with no associated data.
pub uninterp spec fn aes256gcm_seal(key: Seq<u8>, nonce: Seq<u8>, plaintext: Seq<u8>) -> Seq<u8>;

/// What AES-256-GCM decryption of `ciphertext` (tag appended) under `key` and
/// `nonce` yields: the plaintext, or `None` when authentication fails.
pub uninterp spec fn aes256gcm_open(key: Seq<u8>, nonce: Seq<u8>, ciphertext: Seq<u8>) -> Option<Seq<u8>>;

/// Calls `Aes256Gcm::encrypt` (through `aead::Aead`). The crate refuses a
/// plaintext longer than `P_MAX` and otherwise returns the ciphertext of the
/// same length followed by the 16-byte tag.
#[verifier::external_body]
fn aes256gcm_encrypt(key: &[u8; 32], nonce: &[u8; 12], plaintext: &[u8]) -> (r: Result<Vec<u8>, aes_gcm::Error>)
    ensures
        r is Ok <==> plaintext@.len() <= MAX_PLAINTEXT_LEN,
        r matches Ok(c) ==> c@ == aes256gcm_seal(key@, nonce@, plaintext@),
        r matches Ok(c) ==> c@.len() == plaintext@.len() + TAG_LEN,
{
    let cipher = Aes256Gcm::new(Key::<Aes256Gcm>::from_slice(key));
    cipher.encrypt(Nonce::from_slice(nonce), plaintext)
}

/// Calls `Aes256Gcm::decrypt` (through `aead::Aead`). It fails on input
/// shorter than the tag, and, being the inverse of encryption, gives back the
/// plaintext that was sealed under the same key and nonce.
#[verifier::external_body]
fn aes256gcm_decrypt(key: &[u8; 32], nonce: &[u8], ciphertext: &[u8]) -> (r: Result<Vec<u8>, aes_gcm::Error>)
    requires
        nonce@.len() == NONCE_LEN,
    ensures
        r is Ok <==> aes256gcm_open(key@, nonce@, ciphertext@) is Some,
        r matches Ok(p) ==> aes256gcm_open(key@, nonce@, ciphertext@) == Some(p@),
        ciphertext@.len() < TAG_LEN ==> r is Err,
        r is Err ==> forall|p: Seq<u8>|
            p.len() <= MAX_PLAINTEXT_LEN ==> #[trigger] aes256gcm_seal(key@, nonce@, p) != ciphertext@,
        r matches Ok(q) ==> forall|p: Seq<u8>|
            p.len() <= MAX_PLAINTEXT_LEN && #[trigger] aes256gcm_seal(key@, nonce@, p) == ciphertext@ ==> q@ == p,
{
    let cipher = Aes256Gcm::new(Key::<Aes256Gcm>::from_slice(key));
    cipher.decrypt(Nonce::from_slice(nonce), ciphertext)
}

/// Calls `Aes256Gcm::generate_nonce` with `OsRng`: twelve random bytes, of
/// which nothing is stated.
#[verifier::external_body]
fn random_nonce() -> [u8; 12] {
    Aes256Gcm::generate_nonce(&mut OsRng).into()
}

/// Calls `<aead::Error as ToString>::to_string`; its `Display` writes the
/// fixed text `aead::Error`.
#[verifier::external_body]
fn aead_error_text(e: &aes_gcm::Error) -> (s: String)
    ensures
        s@ == "aead::Error"@,
{
    e.to_string()
}

/// `blob` is a sealed form of `plaintext` under `key`: a 12-byte nonce
/// followed by the AES-256-GCM ciphertext of the plaintext under that nonce.
pub open spec fn sealed_blob(key: Seq<u8>, plaintext: Seq<u8>, blob: Seq<u8>) -> bool {
    &&& blob.len() >= NONCE_LEN
    &&& blob.subrange(NONCE_LEN as int, blob.len() as int) == aes256gcm_seal(
        key,
        blob.subrange(0, NONCE_LEN as int),
        plaintext,
    )
}

/// Lays out a sealed blob: the nonce followed by the ciphertext.
pub fn frame_blob(nonce: &[u8; 12], ciphertext: &[u8]) -> (blob: Vec<u8>)
    ensures
        blob@ == nonce@ + ciphertext@,
{
    let mut out: Vec<u8> = Vec::new();
    out.extend_from_slice(nonce.as_slice());
    out.extend_from_slice(ciphertext);
    out
}

/// Encrypts `plaintext` under `key_bytes` with a fresh random nonce and
/// returns `nonce (12 bytes) ++ ciphertext ++ tag (16 bytes)`.
pub fn encrypt_payload(plaintext: &[u8], key_bytes: &[u8; 32]) -> (r: Result<Vec<u8>, SentinelError>)
    ensures
        r is Ok <==> plaintext@.len() <= MAX_PLAINTEXT_LEN,
        r matches Ok(blob) ==> blob@.len() == NONCE_LEN + plaintext@.len() + TAG_LEN,
        r matches Ok(blob) ==> sealed_blob(key_bytes@, plaintext@, blob@),
        r matches Err(e) ==> e matches SentinelError::Crypto(m) && m@ == "aead::Error"@,
{
    let nonce = random_nonce();
    match aes256gcm_encrypt(key_bytes, &nonce, plaintext) {
        Ok(ciphertext) => {
            let blob = frame_blob(&nonce, ciphertext.as_slice());
            assert(blob@.subrange(0, NONCE_LEN as int) =~= nonce@);
            assert(blob@.subrange(NONCE_LEN as int, blob@.len() as int) =~= ciphertext@);
            Ok(blob)
        },
        Err(e) => Err(SentinelError::Crypto(aead_error_text(&e))),
    }
}

/// Decrypts a blob produced by `encrypt_payload`.
pub fn decrypt_payload(blob: &[u8], key_bytes: &[u8; 32]) -> (r: Result<Vec<u8>, SentinelError>)
    ensures
        blob@.len() < NONCE_LEN ==> (r matches Err(SentinelError::Crypto(m))
            && m@ == "blob too short to contain nonce"@),
        blob@.len() >= NONCE_LEN ==> (r is Ok <==> aes256gcm_open(
            key_bytes@,
            blob@.subrange(0, NONCE_LEN as int),
            blob@.subrange(NONCE_LEN as int, blob@.len() as int),
        ) is Some),
        r matches Ok(p) ==> aes256gcm_open(
            key_bytes@,
            blob@.subrange(0, NONCE_LEN as int),
            blob@.subrange(NONCE_LEN as int, blob@.len() as int),
        ) == Some(p@),
        blob@.len() >= NONCE_LEN && r is Err ==> (r matches Err(SentinelError::Crypto(m)) && m@ == "aead::Error"@),
        // A blob sealed from a plaintext under this key opens to that plaintext.
        forall|p: Seq<u8>|
            p.len() <= MAX_PLAINTEXT_LEN && #[trigger] sealed_blob(key_bytes@, p, blob@)
                ==> (r matches Ok(q) && q@ == p),
{
    if blob.len() < NONCE_LEN {
        proof { reveal_strlit("blob too short to contain nonce"); }
        return Err(SentinelError::Crypto("blob too short to contain nonce".to_owned()));
    }
    let (nonce_bytes, ciphertext) = blob.split_at(NONCE_LEN);
    assert(nonce_bytes@ == blob@.subrange(0, NONCE_LEN as int));
    assert(ciphertext@ == blob@.subrange(NONCE_LEN as int, blob@.len() as int));
    match aes256gcm_decrypt(key_bytes, nonce_bytes, ciphertext) {
        Ok(p) => Ok(p),
        Err(e) => Err(SentinelError::Crypto(aead_error_text(&e))),
    }
}

/// Calls `rand::RngCore::fill_bytes` on `rand::thread_rng()` over a
/// 32-byte array: random bytes, of which nothing is stated.
#[verifier::external_body]
fn random_key() -> [u8; 32] {
    let mut key = [0u8; 32];
    rand::RngCore::fill_bytes(&mut rand::thread_rng(), &mut key);
    key
}

/// The master key that a text read from the keychain stands for: the bytes
/// of its hexadecimal rendering, when those are exactly 32.
pub open spec fn stored_key(stored: Seq<char>) -> Option<Seq<u8>> {
    match hex_decode(stored) {
        Some(bytes) => if bytes.len() == KEY_LEN { Some(bytes) } else { None },
        None => None,
    }
}

/// Where the master key came from.
pub enum MasterKey {
    /// Read back from the keychain entry.
    Stored([u8; 32]),
    /// Freshly generated; `encoded` is what must be written to the keychain.
    Generated { key: [u8; 32], encoded: String },
}

impl MasterKey {
    pub open spec fn spec_key(&self) -> Seq<u8> {
        match self {
            MasterKey::Stored(k) => k@,
            MasterKey::Generated { key, .. } => key@,
        }
    }

    /// The 32 key bytes.
    pub fn key(&self) -> (k: [u8; 32])
        ensures
            k@ == self.spec_key(),
    {
        match self {
            MasterKey::Stored(k) => *k,
            MasterKey::Generated { key, .. } => *key,
        }
    }
}

/// Decides the master key from what the keychain holds (`None` when there is
/// no entry): a stored hexadecimal key of 32 bytes is used as it is; anything
/// else is replaced by a fresh random key, handed back together with its
/// hexadecimal text for storage.
pub fn resolve_master_key(stored: Option<&str>) -> (r: MasterKey)
    ensures
        match stored {
            Some(s) => stored_key(s@) is Some ==> (r matches MasterKey::Stored(k) && k@ == stored_key(s@)->0),
            None => true,
        },
        r matches MasterKey::Stored(k) ==> (stored matches Some(s) && stored_key(s@) == Some(k@)),
        r matches MasterKey::Generated { key, encoded } ==> (encoded@ == hex_encode(key@) && match stored {
            Some(s) => stored_key(s@) is None,
            None => true,
        }),
{
    if let Some(text) = stored {
        if let Some(decoded) = hex_decode_text(text) {
            if decoded.len() == KEY_LEN {
                let mut key = [0u8; 32];
                let mut i: usize = 0;
                while i < KEY_LEN
                    invariant
                        i <= KEY_LEN,
                        decoded@.len() == KEY_LEN,
                        key@.len() == KEY_LEN,
                        forall|j: int| 0 <= j < i ==> key@[j] == decoded@[j],
                    decreases KEY_LEN - i,
                {
                    key[i] = decoded[i];
                    i = i + 1;
                }
                assert(key@ =~= decoded@);
                return MasterKey::Stored(key);
            }
        }
    }
    let key = random_key();
    let encoded = hex_encode_bytes(key.as_slice());
    MasterKey::Generated { key, encoded }
}

/// A key that was generated and written to the keychain as its hexadecimal
/// text is read back as the same key on the next start.
pub proof fn lemma_persisted_key_is_read_back(key: Seq<u8>)
    requires
        key.len() == KEY_LEN,
    ensures
        stored_key(hex_encode(key)) == Some(key),
{
    lemma_hex_round_trip(key);
}

} // verus!

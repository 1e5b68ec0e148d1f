//! ChaCha20-Poly1305 encryption of a whole input under a 32-byte key.
//!
//! The nonce of each call is drawn fresh and is neither returned nor taken as
//! an argument, so a ciphertext made here cannot be opened by a later call:
//! these two operations are an unfinished part of the toolbox.

use vstd::prelude::*;

use chacha20poly1305::aead::{Aead, AeadCore, KeyInit};

use crate::bytes::prefix_array;

verus! {

/// Length in bytes of a ChaCha20-Poly1305 key.
pub const CHACHA_KEY_LEN: usize = 32;

/// Length in bytes of the authentication tag appended to a ciphertext.
pub const TAG_LEN: usize = 16;

/// The ciphertext, tag included, of `plaintext` under `key` and `nonce`.
pub uninterp spec fn chacha20poly1305_sealed(
    key: Seq<u8>,
    nonce: Seq<u8>,
    plaintext: Seq<u8>,
) -> Seq<u8>;

/// The plaintext of `ciphertext` under `key` and `nonce`, or None when its tag
/// does not hold.
pub uninterp spec fn chacha20poly1305_opened(
    key: Seq<u8>,
    nonce: Seq<u8>,
    ciphertext: Seq<u8>,
) -> Option<Seq<u8>>;

#[verifier::external_type_specification]
#[verifier::external_body]
pub struct ExAeadError(chacha20poly1305::Error);

/// Relies on AeadCore::generate_nonce for ChaCha20Poly1305 with the operating
/// system's random source: 12 random bytes, of which nothing is promised.
#[verifier::external_body]
fn random_nonce() -> (r: [u8; 12]) {
    chacha20poly1305::ChaCha20Poly1305::generate_nonce(&mut chacha20poly1305::aead::OsRng).into()
}

/// Relies on Aead::encrypt for ChaCha20Poly1305 built by KeyInit::new from the
/// key: it fails only for a plaintext of u32::MAX blocks of 64 bytes or more,
/// and otherwise appends a 16-byte tag to the encrypted bytes.
#[verifier::external_body]
fn seal(key: &[u8; 32], nonce: &[u8; 12], plaintext: &[u8]) -> (r: Result<
    Vec<u8>,
    chacha20poly1305::Error,
>)
    ensures
        r is Ok <==> plaintext@.len() / 64 < u32::MAX,
        r matches Ok(c) ==> c@ == chacha20poly1305_sealed(key@, nonce@, plaintext@),
        r matches Ok(c) ==> c@.len() == plaintext@.len() + TAG_LEN,
{
    let cipher = chacha20poly1305::ChaCha20Poly1305::new(chacha20poly1305::Key::from_slice(key));
    cipher.encrypt(chacha20poly1305::Nonce::from_slice(nonce), plaintext)
}

/// Relies on Aead::decrypt for ChaCha20Poly1305 built by KeyInit::new from the
/// key: the bytes before the 16-byte tag, decrypted, when the tag holds.
#[verifier::external_body]
fn open(key: &[u8; 32], nonce: &[u8; 12], ciphertext: &[u8]) -> (r: Result<
    Vec<u8>,
    chacha20poly1305::Error,
>)
    ensures
        r is Ok <==> chacha20poly1305_opened(key@, nonce@, ciphertext@) is Some,
        r matches Ok(p) ==> chacha20poly1305_opened(key@, nonce@, ciphertext@) == Some(p@),
        r matches Ok(p) ==> p@.len() + TAG_LEN == ciphertext@.len(),
{
    let cipher = chacha20poly1305::ChaCha20Poly1305::new(chacha20poly1305::Key::from_slice(key));
    cipher.decrypt(chacha20poly1305::Nonce::from_slice(nonce), ciphertext)
}

/// Why encryption or decryption failed.
#[derive(Debug, Clone, Copy, PartialEq, Eq, Structural)]
pub enum CipherError {
    /// The key is not 32 bytes long.
    KeyLength,
    /// The cipher refused the input: too long to encrypt, or a tag that does
    /// not hold on decryption.
    Cipher,
}

/// Encrypts `input` under `key` with a fresh random nonce.
pub fn process_encrypt(input: &[u8], key: &[u8]) -> (r: Result<Vec<u8>, CipherError>)
    ensures
        key@.len() != CHACHA_KEY_LEN <==> r == Err::<Vec<u8>, CipherError>(CipherError::KeyLength),
        key@.len() == CHACHA_KEY_LEN ==> (r is Ok <==> input@.len() / 64 < u32::MAX),
        r is Err ==> key@.len() != CHACHA_KEY_LEN || r == Err::<Vec<u8>, CipherError>(
            CipherError::Cipher,
        ),
        r matches Ok(c) ==> c@.len() == input@.len() + TAG_LEN && exists|nonce: Seq<u8>|
            nonce.len() == 12 && c@ == #[trigger] chacha20poly1305_sealed(key@, nonce, input@),
{
    if key.len() != CHACHA_KEY_LEN {
        return Err(CipherError::KeyLength);
    }
    let key_bytes = prefix_array::<32>(key);
    assert(key_bytes@ =~= key@);
    let nonce = random_nonce();
    match seal(&key_bytes, &nonce, input) {
        Ok(c) => {
            assert(nonce@.len() == 12 && c@ == chacha20poly1305_sealed(key_bytes@, nonce@, input@));
            Ok(c)
        },
        Err(_) => Err(CipherError::Cipher),
    }
}

/// Decrypts `input` under `key` with a fresh random nonce.
pub fn process_decrypt(input: &[u8], key: &[u8]) -> (r: Result<Vec<u8>, CipherError>)
    ensures
        key@.len() != CHACHA_KEY_LEN <==> r == Err::<Vec<u8>, CipherError>(CipherError::KeyLength),
        r is Err ==> key@.len() != CHACHA_KEY_LEN || r == Err::<Vec<u8>, CipherError>(
            CipherError::Cipher,
        ),
        r matches Ok(p) ==> p@.len() + TAG_LEN == input@.len() && exists|nonce: Seq<u8>|
            nonce.len() == 12 && #[trigger] chacha20poly1305_opened(key@, nonce, input@) == Some(
                p@,
            ),
{
    if key.len() != CHACHA_KEY_LEN {
        return Err(CipherError::KeyLength);
    }
    let key_bytes = prefix_array::<32>(key);
    assert(key_bytes@ =~= key@);
    let nonce = random_nonce();
    match open(&key_bytes, &nonce, input) {
        Ok(p) => {
            assert(nonce@.len() == 12);
            assert(chacha20poly1305_opened(key_bytes@, nonce@, input@) == Some(p@));
            Ok(p)
        },
        Err(_) => Err(CipherError::Cipher),
    }
}

} // verus!

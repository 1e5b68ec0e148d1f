//! The cryptographic primitives that the signing schemes call, each behind one
//! trusted function whose contract names what it computes.

use vstd::prelude::*;

use ed25519_dalek::{Signer, Verifier};

verus! {

/// The BLAKE3 keyed hash of `msg` under the 32-byte `key`.
pub uninterp spec fn blake3_keyed_hash_of(key: Seq<u8>, msg: Seq<u8>) -> Seq<u8>;

/// The Ed25519 verifying key (a compressed curve point) derived from a 32-byte seed.
pub uninterp spec fn ed25519_public_of(seed: Seq<u8>) -> Seq<u8>;

/// The deterministic Ed25519 signature of `msg` under the signing key with this seed.
pub uninterp spec fn ed25519_signature_of(seed: Seq<u8>, msg: Seq<u8>) -> Seq<u8>;

/// Whether 32 bytes decode to a point of the curve, i.e. form a usable verifying key.
pub uninterp spec fn ed25519_verifying_key_decodes(key: Seq<u8>) -> bool;

/// Whether the verifying key `key` accepts `sig` as a signature of `msg`.
pub uninterp spec fn ed25519_accepts(key: Seq<u8>, msg: Seq<u8>, sig: Seq<u8>) -> bool;

/// Relies on blake3::keyed_hash: the 32-byte keyed hash of `msg`, a function
/// of the key and the message alone.
#[verifier::external_body]
pub(crate) fn blake3_keyed_hash(key: &[u8; 32], msg: &[u8]) -> (r: [u8; 32])
    ensures
        r@ == blake3_keyed_hash_of(key@, msg@),
{
    *blake3::keyed_hash(key, msg).as_bytes()
}

/// Relies on ed25519_dalek::SigningKey::verifying_key: the verifying key of
/// the signing key built from `seed` by SigningKey::from_bytes. It is the
/// compression of a curve point, so VerifyingKey::from_bytes accepts it.
#[verifier::external_body]
pub(crate) fn ed25519_public_key(seed: &[u8; 32]) -> (r: [u8; 32])
    ensures
        r@ == ed25519_public_of(seed@),
        ed25519_verifying_key_decodes(r@),
{
    ed25519_dalek::SigningKey::from_bytes(seed).verifying_key().to_bytes()
}

/// Relies on ed25519_dalek's Signer::sign for SigningKey: the 64-byte
/// signature of `msg`, deterministic in the seed and the message (RFC 8032).
/// The crate's top-level documentation shows that such a signature verifies
/// under `signing_key.verifying_key()`, which is what the second clause says.
#[verifier::external_body]
pub(crate) fn ed25519_sign(seed: &[u8; 32], msg: &[u8]) -> (r: [u8; 64])
    ensures
        r@ == ed25519_signature_of(seed@, msg@),
        ed25519_accepts(ed25519_public_of(seed@), msg@, r@),
{
    ed25519_dalek::SigningKey::from_bytes(seed).sign(msg).to_bytes()
}

/// Relies on ed25519_dalek::VerifyingKey::from_bytes: whether the bytes
/// decompress to a curve point.
#[verifier::external_body]
pub(crate) fn ed25519_key_decodes(key: &[u8; 32]) -> (r: bool)
    ensures
        r == ed25519_verifying_key_decodes(key@),
{
    ed25519_dalek::VerifyingKey::from_bytes(key).is_ok()
}

/// Relies on ed25519_dalek's Verifier::verify for VerifyingKey: whether the
/// signature of `msg` holds under the key (RFC 8032 verification).
#[verifier::external_body]
pub(crate) fn ed25519_verify(key: &[u8; 32], msg: &[u8], sig: &[u8; 64]) -> (r: bool)
    requires
        ed25519_verifying_key_decodes(key@),
    ensures
        r == ed25519_accepts(key@, msg@, sig@),
{
    match ed25519_dalek::VerifyingKey::from_bytes(key) {
        Ok(k) => k.verify(msg, &ed25519_dalek::Signature::from_bytes(sig)).is_ok(),
        Err(_) => false,
    }
}

/// Relies on ed25519_dalek::SigningKey::generate with the operating system's
/// random source: a fresh 32-byte seed, of which nothing is promised.
#[verifier::external_body]
pub(crate) fn ed25519_random_seed() -> (r: [u8; 32]) {
    ed25519_dalek::SigningKey::generate(&mut rand::rngs::OsRng).to_bytes()
}

} // verus!

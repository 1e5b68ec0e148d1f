//! The two signing schemes: a keyed hash (BLAKE3), whose one 32-byte key both
//! signs and verifies, and a digital signature (Ed25519), whose signing seed and
//! verifying key are separate types.

use vstd::prelude::*;
use vstd::string::StringSliceAdditionalSpecFns;

use crate::bytes::{bytes_to_vec, constant_time_eq, prefix_array};
use crate::cli::SignFormat;
use crate::crypto::{
    blake3_keyed_hash, blake3_keyed_hash_of, ed25519_accepts, ed25519_key_decodes,
    ed25519_public_key, ed25519_public_of, ed25519_sign, ed25519_signature_of,
    ed25519_random_seed, ed25519_verifying_key_decodes, ed25519_verify,
};
use crate::process::b64::{base64_url_safe_decoded, decode_url_safe};
use crate::process::gen_pass::{gen_password, is_password};

verus! {

/// Length in bytes of every key of both schemes.
pub const KEY_LEN: usize = 32;

/// Length in bytes of a keyed-hash signature.
pub const KEYED_HASH_SIG_LEN: usize = 32;

/// Length in bytes of an Ed25519 signature.
pub const SIGNATURE_SIG_LEN: usize = 64;

/// Why a key or a signature could not be used.
#[derive(Debug, Clone, Copy, PartialEq, Eq, Structural)]
pub enum TextError {
    /// The key bytes are too short, or do not form a key of the scheme.
    KeyFormat,
    /// The signature text is not valid base64, or its length does not fit the scheme.
    Decode,
}

/// The key that a key file yields: its first 32 bytes.
pub open spec fn key_prefix(bytes: Seq<u8>) -> Seq<u8> {
    bytes.subrange(0, KEY_LEN as int)
}

/// The keyed-hash signature of `msg` under `key`.
pub open spec fn keyed_hash_signature(key: Seq<u8>, msg: Seq<u8>) -> Seq<u8> {
    blake3_keyed_hash_of(key, msg)
}

/// Whether `sig` is the keyed-hash signature of `msg` under `key`.
pub open spec fn keyed_hash_accepts(key: Seq<u8>, msg: Seq<u8>, sig: Seq<u8>) -> bool {
    sig == keyed_hash_signature(key, msg)
}

/// A visible ASCII character: neither a space nor a control character.
pub open spec fn is_printable(b: u8) -> bool {
    0x21 <= b <= 0x7e
}

/// The keys that keyed-hash key generation returns: one key of 32 printable
/// bytes, a password with all four character classes.
pub open spec fn is_keyed_hash_key_set(keys: Seq<Seq<u8>>) -> bool {
    &&& keys.len() == 1
    &&& keys[0].len() == KEY_LEN
    &&& forall|i: int| 0 <= i < keys[0].len() ==> is_printable(#[trigger] keys[0][i])
    &&& is_password(keys[0], 32, false, false, false, false)
}

/// The keys that signature key generation returns: a 32-byte seed, then the
/// verifying key that belongs to it.
pub open spec fn is_signature_key_set(keys: Seq<Seq<u8>>) -> bool {
    &&& keys.len() == 2
    &&& keys[0].len() == KEY_LEN
    &&& keys[1] == ed25519_public_of(keys[0])
    &&& keys[1].len() == KEY_LEN
    &&& ed25519_verifying_key_decodes(keys[1])
}

/// The keys that key generation returns for the scheme.
pub open spec fn is_generated_key_set(format: SignFormat, keys: Seq<Seq<u8>>) -> bool {
    match format {
        SignFormat::Blake3 => is_keyed_hash_key_set(keys),
        SignFormat::Ed25519 => is_signature_key_set(keys),
    }
}

/// The length of every signature of the scheme.
pub open spec fn signature_len(format: SignFormat) -> nat {
    match format {
        SignFormat::Blake3 => KEYED_HASH_SIG_LEN as nat,
        SignFormat::Ed25519 => SIGNATURE_SIG_LEN as nat,
    }
}

/// What signing `msg` with the key file `key` gives: a key format error for
/// fewer than 32 key bytes, else the scheme's signature under the first 32.
pub open spec fn spec_text_sign(msg: Seq<u8>, key: Seq<u8>, format: SignFormat) -> Result<
    Seq<u8>,
    TextError,
> {
    if key.len() < KEY_LEN {
        Err(TextError::KeyFormat)
    } else {
        match format {
            SignFormat::Blake3 => Ok(keyed_hash_signature(key_prefix(key), msg)),
            SignFormat::Ed25519 => Ok(ed25519_signature_of(key_prefix(key), msg)),
        }
    }
}

/// What checking the raw signature `sig` of `msg` against the key file `key`
/// gives, once the signature text has been decoded: a key format error for a
/// key that is too short or no key of the scheme, a decode error for a
/// signature whose length does not fit the scheme (32 bytes for the keyed
/// hash, 64 for Ed25519), and otherwise whether the signature holds.
pub open spec fn spec_verify_raw(
    msg: Seq<u8>,
    key: Seq<u8>,
    sig: Seq<u8>,
    format: SignFormat,
) -> Result<bool, TextError> {
    if key.len() < KEY_LEN {
        Err(TextError::KeyFormat)
    } else {
        match format {
            SignFormat::Blake3 => if sig.len() != KEYED_HASH_SIG_LEN {
                Err(TextError::Decode)
            } else {
                Ok(keyed_hash_accepts(key_prefix(key), msg, sig))
            },
            SignFormat::Ed25519 => if !ed25519_verifying_key_decodes(key_prefix(key)) {
                Err(TextError::KeyFormat)
            } else if sig.len() != SIGNATURE_SIG_LEN {
                Err(TextError::Decode)
            } else {
                Ok(ed25519_accepts(key_prefix(key), msg, sig))
            },
        }
    }
}

/// What checking the signature text `sig_text` (URL-safe base64 without
/// padding) of `msg` against the key file `key` gives: a decode error for text
/// that is no such base64, then as `spec_verify_raw`.
pub open spec fn spec_text_verify(
    msg: Seq<u8>,
    key: Seq<u8>,
    sig_text: Seq<u8>,
    format: SignFormat,
) -> Result<bool, TextError> {
    match base64_url_safe_decoded(sig_text) {
        None => Err(TextError::Decode),
        Some(sig) => spec_verify_raw(msg, key, sig, format),
    }
}

/// A keyed-hash signature verifies under the key that made it, for every key
/// and every message.
pub proof fn lemma_keyed_hash_sign_then_verify(key: Seq<u8>, msg: Seq<u8>)
    ensures
        keyed_hash_accepts(key, msg, keyed_hash_signature(key, msg)),
{
}

/// Signing a message with a keyed-hash key file of at least 32 bytes succeeds,
/// and checking the signature `sig` it gives (32 bytes long, as
/// `process_text_sign` ensures of every keyed-hash signature) against the same
/// message and key file gives `true`.
pub proof fn lemma_keyed_hash_file_sign_then_verify(msg: Seq<u8>, key: Seq<u8>, sig: Seq<u8>)
    requires
        key.len() >= KEY_LEN,
        spec_text_sign(msg, key, SignFormat::Blake3) == Ok::<Seq<u8>, TextError>(sig),
        sig.len() == KEYED_HASH_SIG_LEN,
    ensures
        spec_verify_raw(msg, key, sig, SignFormat::Blake3) == Ok::<bool, TextError>(true),
{
}

/// A keyed-hash signature of `msg` verifies for another message `other` exactly
/// when the two messages have the same keyed hash; rejecting an altered message
/// thus rests on BLAKE3's resistance to collisions.
pub proof fn lemma_keyed_hash_altered_message(key: Seq<u8>, msg: Seq<u8>, other: Seq<u8>)
    ensures
        keyed_hash_accepts(key, other, keyed_hash_signature(key, msg)) <==> blake3_keyed_hash_of(
            key,
            other,
        ) == blake3_keyed_hash_of(key, msg),
{
}

/// The keyed-hash scheme: one secret 32-byte key signs and verifies.
pub struct Blake3 {
    key: [u8; 32],
}

impl Blake3 {
    /// The key's bytes.
    pub closed spec fn key_bytes(&self) -> Seq<u8> {
        self.key@
    }

    /// The scheme with this key.
    pub fn new(key: [u8; 32]) -> (r: Self)
        ensures
            r.key_bytes() == key@,
    {
        Blake3 { key }
    }

    /// Takes the first 32 bytes of `key` as the key; fewer than 32 bytes are a
    /// key format error. Note that a longer key file is not refused: the bytes
    /// after the 32nd are ignored, so two files that differ only there sign
    /// alike. Generated key files hold exactly 32 bytes.
    pub fn try_new(key: &[u8]) -> (r: Result<Self, TextError>)
        ensures
            r is Ok <==> key@.len() >= KEY_LEN,
            r is Err ==> r == Err::<Self, TextError>(TextError::KeyFormat),
            r matches Ok(b) ==> b.key_bytes() == key_prefix(key@),
    {
        if key.len() < KEY_LEN {
            return Err(TextError::KeyFormat);
        }
        Ok(Self::new(prefix_array::<32>(key)))
    }

    /// The 32-byte keyed hash of the whole message.
    pub fn sign(&self, msg: &[u8]) -> (r: Vec<u8>)
        ensures
            r@ == keyed_hash_signature(self.key_bytes(), msg@),
            r@.len() == KEYED_HASH_SIG_LEN,
    {
        let hash = blake3_keyed_hash(&self.key, msg);
        bytes_to_vec(&hash)
    }

    /// Recomputes the keyed hash of the message and compares it with `sig`,
    /// in time that does not depend on where they differ.
    pub fn verify(&self, msg: &[u8], sig: &[u8]) -> (r: bool)
        ensures
            r == keyed_hash_accepts(self.key_bytes(), msg@, sig@),
    {
        let hash = blake3_keyed_hash(&self.key, msg);
        constant_time_eq(&hash, sig)
    }

    /// A fresh key: a random 32-character password with lowercase letters,
    /// uppercase letters, digits and symbols, taken as its bytes. The key space
    /// is thus that of such passwords, not of all 32-byte strings.
    pub fn generate() -> (r: Vec<Vec<u8>>)
        ensures
            is_keyed_hash_key_set(r.deep_view()),
    {
        let key = match gen_password(32, false, false, false, false) {
            Ok(key) => key,
            Err(_) => Vec::new(),
        };
        let r = vec![key];
        assert(r.deep_view()[0] == r@[0]@);
        r
    }
}

/// The signing half of the Ed25519 scheme: a 32-byte secret seed.
pub struct Ed25519Signer {
    seed: [u8; 32],
}

impl Ed25519Signer {
    /// The seed's bytes.
    pub closed spec fn seed_bytes(&self) -> Seq<u8> {
        self.seed@
    }

    /// The signing key with this seed; every 32 bytes are a seed.
    pub fn new(seed: [u8; 32]) -> (r: Self)
        ensures
            r.seed_bytes() == seed@,
    {
        Ed25519Signer { seed }
    }

    /// Takes the first 32 bytes of `key` as the seed; fewer than 32 bytes are a
    /// key format error, and bytes after the 32nd are ignored.
    pub fn try_new(key: &[u8]) -> (r: Result<Self, TextError>)
        ensures
            r is Ok <==> key@.len() >= KEY_LEN,
            r is Err ==> r == Err::<Self, TextError>(TextError::KeyFormat),
            r matches Ok(s) ==> s.seed_bytes() == key_prefix(key@),
    {
        if key.len() < KEY_LEN {
            return Err(TextError::KeyFormat);
        }
        Ok(Self::new(prefix_array::<32>(key)))
    }

    /// The 64-byte signature of the whole message, which the matching
    /// verifying key accepts.
    pub fn sign(&self, msg: &[u8]) -> (r: Vec<u8>)
        ensures
            r@ == ed25519_signature_of(self.seed_bytes(), msg@),
            r@.len() == SIGNATURE_SIG_LEN,
            ed25519_accepts(ed25519_public_of(self.seed_bytes()), msg@, r@),
    {
        let sig = ed25519_sign(&self.seed, msg);
        bytes_to_vec(&sig)
    }

    /// A fresh key pair from a random seed: the seed, then its verifying key.
    pub fn generate() -> (r: Vec<Vec<u8>>)
        ensures
            is_signature_key_set(r.deep_view()),
    {
        let seed = ed25519_random_seed();
        let public = ed25519_public_key(&seed);
        let r = vec![bytes_to_vec(&seed), bytes_to_vec(&public)];
        assert(r.deep_view()[0] == r@[0]@);
        assert(r.deep_view()[1] == r@[1]@);
        r
    }

    /// The verifying key that belongs to this seed.
    pub fn verifying_key(&self) -> (r: Ed25519Verifier)
        ensures
            r.key_bytes() == ed25519_public_of(self.seed_bytes()),
    {
        Ed25519Verifier::new(ed25519_public_key(&self.seed))
    }
}

/// The verifying half of the Ed25519 scheme: 32 bytes that decode to a point
/// of the curve.
pub struct Ed25519Verifier {
    key: [u8; 32],
}

impl Ed25519Verifier {
    /// The verifying key's bytes.
    pub closed spec fn key_bytes(&self) -> Seq<u8> {
        self.key@
    }

    #[verifier::type_invariant]
    spec fn decodes(&self) -> bool {
        ed25519_verifying_key_decodes(self.key@)
    }

    /// The verifying key with these bytes, which must decode to a point.
    pub fn new(key: [u8; 32]) -> (r: Self)
        requires
            ed25519_verifying_key_decodes(key@),
        ensures
            r.key_bytes() == key@,
    {
        Ed25519Verifier { key }
    }

    /// The verifying key's bytes, as a key file holds them.
    pub fn to_bytes(&self) -> (r: Vec<u8>)
        ensures
            r@ == self.key_bytes(),
    {
        bytes_to_vec(&self.key)
    }

    /// Takes the first 32 bytes of `key` as the verifying key. Fewer than 32
    /// bytes, or bytes that are no point of the curve, are a key format error.
    pub fn try_new(key: &[u8]) -> (r: Result<Self, TextError>)
        ensures
            r is Ok <==> key@.len() >= KEY_LEN && ed25519_verifying_key_decodes(key_prefix(key@)),
            r is Err ==> r == Err::<Self, TextError>(TextError::KeyFormat),
            r matches Ok(v) ==> v.key_bytes() == key_prefix(key@),
    {
        if key.len() < KEY_LEN {
            return Err(TextError::KeyFormat);
        }
        let bytes = prefix_array::<32>(key);
        if !ed25519_key_decodes(&bytes) {
            return Err(TextError::KeyFormat);
        }
        Ok(Self::new(bytes))
    }

    /// Checks `sig` as an Ed25519 signature of the whole message. A `sig` that
    /// is not 64 bytes long is a decode error; a well-formed signature that
    /// does not hold gives `Ok(false)`.
    pub fn verify(&self, msg: &[u8], sig: &[u8]) -> (r: Result<bool, TextError>)
        ensures
            sig@.len() != SIGNATURE_SIG_LEN <==> r == Err::<bool, TextError>(TextError::Decode),
            sig@.len() == SIGNATURE_SIG_LEN ==> r == Ok::<bool, TextError>(
                ed25519_accepts(self.key_bytes(), msg@, sig@),
            ),
    {
        if sig.len() != SIGNATURE_SIG_LEN {
            return Err(TextError::Decode);
        }
        let sig_bytes = prefix_array::<64>(sig);
        assert(sig_bytes@ =~= sig@);
        proof {
            use_type_invariant(self);
        }
        Ok(ed25519_verify(&self.key, msg, &sig_bytes))
    }
}

/// Signs the whole message `input` with the key file contents `key` under the
/// chosen scheme.
pub fn process_text_sign(input: &[u8], key: &[u8], format: SignFormat) -> (r: Result<
    Vec<u8>,
    TextError,
>)
    ensures
        match r {
            Ok(sig) => spec_text_sign(input@, key@, format) == Ok::<Seq<u8>, TextError>(sig@),
            Err(e) => spec_text_sign(input@, key@, format) == Err::<Seq<u8>, TextError>(e),
        },
        r matches Ok(sig) ==> sig@.len() == signature_len(format),
        format == SignFormat::Ed25519 ==> (r matches Ok(sig) ==> ed25519_accepts(
            ed25519_public_of(key_prefix(key@)),
            input@,
            sig@,
        )),
{
    match format {
        SignFormat::Blake3 => {
            let blake3 = match Blake3::try_new(key) {
                Ok(b) => b,
                Err(e) => return Err(e),
            };
            Ok(blake3.sign(input))
        },
        SignFormat::Ed25519 => {
            let signer = match Ed25519Signer::try_new(key) {
                Ok(s) => s,
                Err(e) => return Err(e),
            };
            Ok(signer.sign(input))
        },
    }
}

/// Checks the raw signature `sig` of the whole message `input` against the
/// key file contents `key` under the chosen scheme. The key is checked first;
/// a signature of the wrong length for the scheme is then a decode error, and
/// only a well-formed signature that does not hold gives `Ok(false)`.
pub fn verify_raw(input: &[u8], key: &[u8], sig: &[u8], format: SignFormat) -> (r: Result<
    bool,
    TextError,
>)
    ensures
        r == spec_verify_raw(input@, key@, sig@, format),
{
    match format {
        SignFormat::Blake3 => {
            let blake3 = match Blake3::try_new(key) {
                Ok(b) => b,
                Err(e) => return Err(e),
            };
            if sig.len() != KEYED_HASH_SIG_LEN {
                return Err(TextError::Decode);
            }
            Ok(blake3.verify(input, sig))
        },
        SignFormat::Ed25519 => {
            let verifier = match Ed25519Verifier::try_new(key) {
                Ok(v) => v,
                Err(e) => return Err(e),
            };
            verifier.verify(input, sig)
        },
    }
}

/// Checks the signature text `sig`, URL-safe base64 without padding, of the
/// whole message `input` against the key file contents `key` under the chosen
/// scheme. Text that does not decode is an error before the key is looked at.
pub fn process_text_verify(input: &[u8], key: &[u8], sig: &str, format: SignFormat) -> (r: Result<
    bool,
    TextError,
>)
    ensures
        r == spec_text_verify(input@, key@, sig.spec_bytes(), format),
{
    let raw = match decode_url_safe(sig.as_bytes()) {
        Ok(raw) => raw,
        Err(_) => return Err(TextError::Decode),
    };
    verify_raw(input, key, raw.as_slice(), format)
}

/// Fresh keys for the scheme, in the order that the key files are named:
/// one key for the keyed hash; the seed, then its verifying key, for Ed25519.
pub fn process_generate_keys(format: SignFormat) -> (r: Result<Vec<Vec<u8>>, TextError>)
    ensures
        r matches Ok(keys) && is_generated_key_set(format, keys.deep_view()),
{
    match format {
        SignFormat::Blake3 => Ok(Blake3::generate()),
        SignFormat::Ed25519 => Ok(Ed25519Signer::generate()),
    }
}

} // verus!

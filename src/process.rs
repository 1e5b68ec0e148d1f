//! The work behind each subcommand, on values already read from their sources.

pub(crate) mod b64;
mod chacha20;
pub(crate) mod gen_pass;
mod text;

pub use b64::{
    b64_decode, b64_encode, base64_standard_decoded, base64_digit, base64_url_safe_decoded,
    base64_text, is_white_space, spec_b64_decode, spec_b64_encode, trim,
    trim_white_space, trim_end, trim_start, Base64DecodeError,
};
pub use chacha20::{
    chacha20poly1305_opened, chacha20poly1305_sealed, process_decrypt, process_encrypt,
    CipherError, CHACHA_KEY_LEN, TAG_LEN,
};
pub use gen_pass::{
    allowed, char_bytes, class_count, gen_password, genpass_error, has_lower, has_number,
    has_symbol, has_upper, is_lower, is_number, is_password, is_symbol, is_upper,
    process_genpass, GenPassError,
};
pub use text::{
    is_generated_key_set, is_keyed_hash_key_set, is_printable, is_signature_key_set, key_prefix,
    keyed_hash_accepts, keyed_hash_signature, lemma_keyed_hash_altered_message,
    lemma_keyed_hash_file_sign_then_verify, lemma_keyed_hash_sign_then_verify,
    process_generate_keys, process_text_sign, process_text_verify, signature_len,
    spec_text_sign, spec_text_verify, spec_verify_raw, verify_raw, Blake3, Ed25519Signer,
    Ed25519Verifier, TextError, KEYED_HASH_SIG_LEN, KEY_LEN, SIGNATURE_SIG_LEN,
};

//! A command-line toolbox library whose verified core signs and verifies byte
//! messages with a keyed hash (BLAKE3) or a digital signature (Ed25519), and
//! which also draws passwords, encodes base64 and encrypts with ChaCha20-Poly1305.

mod bytes;
mod cli;
mod crypto;
mod process;

pub use bytes::constant_time_eq;
pub use cli::{
    accept_dir, accept_existing_file, accept_input_file, ascii_fold_eq, eq_ignore_ascii_case, file_missing_message,
    format_parser, invalid_path_message, parse_format, parse_output_format, spec_key_file_names,
    str_eq, str_eq_ignore_ascii_case, verify_file, verify_input_file, verify_path,
    Base64DecodeOpts, Base64EncodeOpts, Base64Format, Base64SubCommand,
    ChaCha20GenerateOpts, ChaCha20Opts, ChaCha20SubCommand, Cli, CsvOpts, FormatError,
    GenPassOpts, GenerateOpts, HttpServeOpts, HttpSubcommand, OutputFormat, SignFormat, SignOpts,
    SubCommand, TextSubCommand, VerifyOpts,
};
pub use crypto::{
    blake3_keyed_hash_of, ed25519_accepts, ed25519_public_of, ed25519_signature_of,
    ed25519_verifying_key_decodes,
};
pub use process::{
    allowed, b64_decode, b64_encode, base64_digit, base64_standard_decoded,
    base64_url_safe_decoded, base64_text, chacha20poly1305_opened,
    chacha20poly1305_sealed, char_bytes, class_count, gen_password, genpass_error, has_lower,
    has_number, has_symbol, has_upper, is_generated_key_set, is_white_space,
    is_keyed_hash_key_set, is_lower, is_number, is_password, is_printable, is_signature_key_set,
    is_symbol, is_upper, key_prefix, keyed_hash_accepts, keyed_hash_signature,
    lemma_keyed_hash_altered_message, lemma_keyed_hash_file_sign_then_verify,
    lemma_keyed_hash_sign_then_verify, process_decrypt, process_encrypt, process_generate_keys,
    process_genpass, process_text_sign, process_text_verify, signature_len, spec_b64_decode,
    spec_b64_encode, spec_text_sign, spec_text_verify, spec_verify_raw, trim, trim_white_space,
    trim_end, trim_start, verify_raw, Base64DecodeError, Blake3, CipherError, Ed25519Signer,
    Ed25519Verifier, GenPassError, TextError, CHACHA_KEY_LEN, KEYED_HASH_SIG_LEN, KEY_LEN,
    SIGNATURE_SIG_LEN, TAG_LEN,
};

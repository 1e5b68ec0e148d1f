use rcli::{process_decrypt, process_encrypt, CipherError};

#[test]
fn encrypt_adds_a_tag() {
    let c = process_encrypt(b"secret message", &[9; 32]).unwrap();
    assert_eq!(c.len(), 14 + 16);
    assert_ne!(&c[..14], b"secret message");
    assert_eq!(process_encrypt(b"", &[9; 32]).unwrap().len(), 16);
}

#[test]
fn cipher_key_must_be_32_bytes() {
    assert_eq!(process_encrypt(b"m", &[9; 31]), Err(CipherError::KeyLength));
    assert_eq!(process_decrypt(b"m", &[9; 33]), Err(CipherError::KeyLength));
}

#[test]
fn decrypt_rejects_short_or_forged_input() {
    assert_eq!(process_decrypt(b"short", &[9; 32]), Err(CipherError::Cipher));
    assert_eq!(process_decrypt(&[0; 40], &[9; 32]), Err(CipherError::Cipher));
}

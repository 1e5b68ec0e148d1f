use rcli::{
    b64_encode, process_generate_keys, process_text_sign, process_text_verify, verify_raw,
    Base64Format, Blake3, Ed25519Signer, Ed25519Verifier, SignFormat, TextError,
};

fn hex(s: &str) -> Vec<u8> {
    (0..s.len())
        .step_by(2)
        .map(|i| u8::from_str_radix(&s[i..i + 2], 16).unwrap())
        .collect()
}

fn flip_each_bit(msg: &[u8]) -> Vec<Vec<u8>> {
    let mut out = Vec::new();
    for i in 0..msg.len() {
        for bit in 0..8 {
            let mut m = msg.to_vec();
            m[i] ^= 1 << bit;
            out.push(m);
        }
    }
    out
}

#[test]
fn test_blake3_sign_verify() {
    let key = [0; 32];
    let blake3 = Blake3::new(key);
    let msg = b"hello!";
    let sig = blake3.sign(msg);
    assert!(blake3.verify(msg, &sig));
}

#[test]
fn keyed_hash_known_value() {
    let blake3 = Blake3::new(*b"whats the Elvish word for friend");
    assert_eq!(
        blake3.sign(b""),
        hex("92b2b75604ed3c761f9d6f62392c8a9227ad0ea3f09573e783f1498a4ed60d26")
    );
}

#[test]
fn keyed_hash_zero_key_hello() {
    let blake3 = Blake3::new([0; 32]);
    let sig = blake3.sign(b"hello!");
    assert!(blake3.verify(b"hello!", &sig));
    assert!(!blake3.verify(b"hello?", &sig));
    assert_eq!(sig.len(), 32);
    assert_ne!(sig, vec![0u8; 32]);
    assert_ne!(sig, b"hello!".to_vec());
}

#[test]
fn keyed_hash_round_trip_many_keys_and_messages() {
    let messages: [&[u8]; 4] = [b"", b"a", b"hello world", &[0xffu8; 1000]];
    for k in 0..5u8 {
        let blake3 = Blake3::new([k.wrapping_mul(37); 32]);
        for m in messages {
            let sig = blake3.sign(m);
            assert_eq!(sig.len(), 32);
            assert!(blake3.verify(m, &sig));
        }
    }
}

#[test]
fn keyed_hash_rejects_flipped_bits_and_other_keys() {
    let blake3 = Blake3::new([7; 32]);
    let msg = b"sign me";
    let sig = blake3.sign(msg);
    for m in flip_each_bit(msg) {
        assert!(!blake3.verify(&m, &sig));
    }
    assert!(!Blake3::new([8; 32]).verify(msg, &sig));
    assert!(!blake3.verify(msg, &sig[..31]));
    let mut longer = sig.clone();
    longer.push(0);
    assert!(!blake3.verify(msg, &longer));
}

#[test]
fn keyed_hash_key_loading() {
    assert!(matches!(Blake3::try_new(&[1; 31]), Err(TextError::KeyFormat)));
    assert!(matches!(Blake3::try_new(&[]), Err(TextError::KeyFormat)));
    let exact = Blake3::try_new(&[1; 32]).unwrap();
    let mut long = vec![1u8; 32];
    long.extend_from_slice(b"\n trailing");
    let from_long = Blake3::try_new(&long).unwrap();
    assert_eq!(exact.sign(b"m"), from_long.sign(b"m"));
}

#[test]
fn ed25519_rfc8032_first_vector() {
    let seed = hex("9d61b19deffd5a60ba844af492ec2cc44449c5697b326919703bac031cae7f60");
    let public = hex("d75a980182b10ab7d54bfed3c964073a0ee172f3daa62325af021a68f707511a");
    let signer = Ed25519Signer::try_new(&seed).unwrap();
    assert_eq!(signer.verifying_key().to_bytes(), public);
    let sig = signer.sign(b"");
    assert_eq!(
        sig,
        hex("e5564300c360ac729086e2cc806e828a84877f1eb8e5d974d873e065224901555fb8821590a33bacc61e39701cf9b46bd25bf5f0595bbe24655141438e7a100b")
    );
    let verifier = Ed25519Verifier::try_new(&public).unwrap();
    assert_eq!(verifier.verify(b"", &sig), Ok(true));
    assert_eq!(verifier.verify(b"x", &sig), Ok(false));
}

#[test]
fn ed25519_fresh_pair_empty_message() {
    let keys = process_generate_keys(SignFormat::Ed25519).unwrap();
    let signer = Ed25519Signer::try_new(&keys[0]).unwrap();
    let sig = signer.sign(b"");
    assert_eq!(sig.len(), 64);
    let verifier = Ed25519Verifier::try_new(&keys[1]).unwrap();
    assert_eq!(verifier.verify(b"", &sig), Ok(true));
    let other = process_generate_keys(SignFormat::Ed25519).unwrap();
    let stranger = Ed25519Verifier::try_new(&other[1]).unwrap();
    assert_eq!(stranger.verify(b"", &sig), Ok(false));
}

#[test]
fn ed25519_generated_pairs_round_trip() {
    let messages: [&[u8]; 3] = [b"", b"hello!", &[0x5a; 300]];
    for _ in 0..3 {
        let keys = process_generate_keys(SignFormat::Ed25519).unwrap();
        let signer = Ed25519Signer::try_new(&keys[0]).unwrap();
        let verifier = Ed25519Verifier::try_new(&keys[1]).unwrap();
        for m in messages {
            let sig = signer.sign(m);
            assert_eq!(sig.len(), 64);
            assert_eq!(verifier.verify(m, &sig), Ok(true));
        }
    }
}

#[test]
fn ed25519_rejects_flipped_bits() {
    let keys = process_generate_keys(SignFormat::Ed25519).unwrap();
    let signer = Ed25519Signer::try_new(&keys[0]).unwrap();
    let verifier = Ed25519Verifier::try_new(&keys[1]).unwrap();
    let msg = b"ab";
    let sig = signer.sign(msg);
    for m in flip_each_bit(msg) {
        assert_eq!(verifier.verify(&m, &sig), Ok(false));
    }
}

#[test]
fn ed25519_structural_errors() {
    assert!(matches!(Ed25519Signer::try_new(&[3; 31]), Err(TextError::KeyFormat)));
    assert!(matches!(Ed25519Verifier::try_new(&[3; 31]), Err(TextError::KeyFormat)));
    let mut not_a_point = [0u8; 32];
    not_a_point[0] = 2;
    assert!(matches!(Ed25519Verifier::try_new(&not_a_point), Err(TextError::KeyFormat)));
    let keys = process_generate_keys(SignFormat::Ed25519).unwrap();
    let verifier = Ed25519Verifier::try_new(&keys[1]).unwrap();
    assert_eq!(verifier.verify(b"m", &[0; 63]), Err(TextError::Decode));
    assert_eq!(verifier.verify(b"m", &[0; 65]), Err(TextError::Decode));
}

#[test]
fn generated_keyed_hash_key_is_printable_password() {
    for _ in 0..20 {
        let keys = process_generate_keys(SignFormat::Blake3).unwrap();
        assert_eq!(keys.len(), 1);
        let key = &keys[0];
        assert_eq!(key.len(), 32);
        assert!(key.iter().all(|b| (0x21..=0x7e).contains(b)));
        assert!(key.iter().any(|b| b.is_ascii_lowercase()));
        assert!(key.iter().any(|b| b.is_ascii_uppercase()));
        assert!(key.iter().any(|b| b.is_ascii_digit()));
        assert!(key.iter().any(|b| b"!@#$%^&*_".contains(b)));
        let blake3 = Blake3::try_new(key).unwrap();
        let sig = blake3.sign(b"msg");
        assert!(blake3.verify(b"msg", &sig));
    }
}

#[test]
fn generated_signature_keys_pair_up() {
    let keys = process_generate_keys(SignFormat::Ed25519).unwrap();
    assert_eq!(keys.len(), 2);
    assert_eq!(keys[0].len(), 32);
    assert_eq!(keys[1].len(), 32);
    let signer = Ed25519Signer::try_new(&keys[0]).unwrap();
    assert_eq!(signer.verifying_key().to_bytes(), keys[1]);
}

#[test]
fn text_sign_and_verify_through_base64() {
    for format in [SignFormat::Blake3, SignFormat::Ed25519] {
        let keys = process_generate_keys(format).unwrap();
        let (sign_key, verify_key) = match format {
            SignFormat::Blake3 => (keys[0].clone(), keys[0].clone()),
            SignFormat::Ed25519 => (keys[0].clone(), keys[1].clone()),
        };
        let sig = process_text_sign(b"hello!", &sign_key, format).unwrap();
        let expected_len = match format {
            SignFormat::Blake3 => 32,
            SignFormat::Ed25519 => 64,
        };
        assert_eq!(sig.len(), expected_len);
        let text = b64_encode(&sig, Base64Format::UrlSafe);
        assert_eq!(process_text_verify(b"hello!", &verify_key, &text, format), Ok(true));
        assert_eq!(process_text_verify(b"hello?", &verify_key, &text, format), Ok(false));
        assert_eq!(verify_raw(b"hello!", &verify_key, &sig, format), Ok(true));
    }
}

#[test]
fn text_errors() {
    assert_eq!(process_text_sign(b"m", &[0; 31], SignFormat::Blake3), Err(TextError::KeyFormat));
    assert_eq!(process_text_sign(b"m", &[0; 5], SignFormat::Ed25519), Err(TextError::KeyFormat));
    assert_eq!(
        process_text_verify(b"m", &[0; 32], "not*base64", SignFormat::Blake3),
        Err(TextError::Decode)
    );
    assert_eq!(
        process_text_verify(b"m", &[0; 31], "AAAA", SignFormat::Blake3),
        Err(TextError::KeyFormat)
    );
    assert_eq!(
        process_text_verify(b"m", &[0; 32], "AAAA", SignFormat::Blake3),
        Err(TextError::Decode)
    );
    let zeros = b64_encode(&[0; 32], Base64Format::UrlSafe);
    assert_eq!(process_text_verify(b"m", &[0; 32], &zeros, SignFormat::Blake3), Ok(false));
    assert_eq!(verify_raw(b"m", &[0; 32], &[0; 33], SignFormat::Blake3), Err(TextError::Decode));
    assert_eq!(verify_raw(b"m", &[0; 31], &[0; 33], SignFormat::Blake3), Err(TextError::KeyFormat));
    let keys = process_generate_keys(SignFormat::Ed25519).unwrap();
    assert_eq!(
        process_text_verify(b"m", &keys[1], "AAAA", SignFormat::Ed25519),
        Err(TextError::Decode)
    );
    let mut not_a_point = vec![0u8; 32];
    not_a_point[0] = 2;
    assert_eq!(
        process_text_verify(b"m", &not_a_point, "AAAA", SignFormat::Ed25519),
        Err(TextError::KeyFormat)
    );
}

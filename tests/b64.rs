use rcli::{b64_decode, b64_encode, trim_white_space, Base64DecodeError, Base64Format};

#[test]
fn test_b64_encode() {
    let input = "Cargo.toml";
    let format = Base64Format::Standard;
    assert_eq!(b64_encode(input.as_bytes(), format), "Q2FyZ28udG9tbA==");
}

#[test]
fn test_b64_decode() {
    let input = "Q2FyZ28udG9tbA\n";
    let format = Base64Format::UrlSafe;
    assert_eq!(b64_decode(input, format), Ok(b"Cargo.toml".to_vec()));
}

#[test]
fn alphabets_differ() {
    assert_eq!(b64_encode(&[0xfb, 0xff, 0xfe], Base64Format::Standard), "+//+");
    assert_eq!(b64_encode(&[0xfb, 0xff, 0xfe], Base64Format::UrlSafe), "-__-");
    assert_eq!(b64_encode(b"hello", Base64Format::Standard), "aGVsbG8=");
    assert_eq!(b64_encode(b"hello", Base64Format::UrlSafe), "aGVsbG8");
    assert_eq!(b64_encode(b"", Base64Format::Standard), "");
}

#[test]
fn decode_round_trip_and_errors() {
    assert_eq!(b64_decode("  aGVsbG8=\r\n", Base64Format::Standard), Ok(b"hello".to_vec()));
    assert_eq!(b64_decode("-__-", Base64Format::UrlSafe), Ok(vec![0xfb, 0xff, 0xfe]));
    assert_eq!(b64_decode("-__-", Base64Format::Standard), Err(Base64DecodeError));
    assert_eq!(b64_decode("aGVsbG8=", Base64Format::UrlSafe), Err(Base64DecodeError));
    assert_eq!(b64_decode("not base64!", Base64Format::Standard), Err(Base64DecodeError));
    assert_eq!(b64_decode("", Base64Format::Standard), Ok(vec![]));
    assert_eq!(b64_decode("\u{3000}aGVsbG8\u{a0}\u{b}", Base64Format::UrlSafe), Ok(b"hello".to_vec()));
}

#[test]
fn trims_white_space_only_at_ends() {
    assert_eq!(trim_white_space(" \t a b \n"), "a b");
    assert_eq!(trim_white_space("   "), "");
    assert_eq!(trim_white_space(""), "");
    assert_eq!(trim_white_space("\u{2003}\u{b}é x\u{85}\u{2029}"), "é x");
    for s in ["  x y\t", "\u{1680}\u{200a}z\u{3000}", "plain", "\u{feff}q"] {
        assert_eq!(trim_white_space(s), s.trim());
    }
}

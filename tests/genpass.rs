use rcli::{gen_password, process_genpass, GenPassError};

const LOWER: &[u8] = b"abcdefghijkmnopqrstuvwxyz";
const UPPER: &[u8] = b"ABCDEFGHJKLMNPQRSTUVWXYZ";
const NUMBER: &[u8] = b"123456789";
const SYMBOL: &[u8] = b"!@#$%^&*_";

#[test]
fn password_has_every_class_that_is_on() {
    for _ in 0..50 {
        let p = process_genpass(16, false, false, false, false).unwrap();
        let b = p.as_bytes();
        assert_eq!(b.len(), 16);
        assert!(b.iter().any(|c| LOWER.contains(c)));
        assert!(b.iter().any(|c| UPPER.contains(c)));
        assert!(b.iter().any(|c| NUMBER.contains(c)));
        assert!(b.iter().any(|c| SYMBOL.contains(c)));
    }
}

#[test]
fn password_leaves_out_classes_that_are_off() {
    for _ in 0..50 {
        let p = gen_password(20, true, false, true, true).unwrap();
        assert_eq!(p.len(), 20);
        assert!(p.iter().all(|c| LOWER.contains(c)));
    }
    let p = gen_password(8, false, true, false, true).unwrap();
    assert!(p.iter().all(|c| UPPER.contains(c) || NUMBER.contains(c)));
}

#[test]
fn password_settings_that_cannot_work() {
    assert_eq!(process_genpass(3, false, false, false, false), Err(GenPassError::TooShort));
    assert_eq!(gen_password(5, true, true, true, true), Err(GenPassError::NoCharacters));
    assert_eq!(gen_password(0, true, true, true, true), Ok(vec![]));
    assert_eq!(process_genpass(4, false, false, false, false).unwrap().len(), 4);
    assert_eq!(process_genpass(255, false, false, false, false).unwrap().len(), 255);
}

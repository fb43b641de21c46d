use randomart::{randomart, Base64, Digest, Hex};

#[test]
fn hex_reads_pairs_of_digits() {
    assert_eq!(Hex::new("00").unwrap().into_bytes(), vec![0x00]);
    assert_eq!(Hex::new("0aF1").unwrap().into_bytes(), vec![0x0a, 0xf1]);
    assert_eq!(Hex::new("ff10").unwrap().into_bytes(), vec![0xff, 0x10]);
    assert_eq!(
        Hex::new("0123456789abcdefABCDEF").unwrap().into_bytes(),
        vec![0x01, 0x23, 0x45, 0x67, 0x89, 0xab, 0xcd, 0xef, 0xab, 0xcd, 0xef]
    );
}

#[test]
fn hex_empty_text_is_no_bytes() {
    assert_eq!(Hex::new("").unwrap().into_bytes(), Vec::<u8>::new());
}

#[test]
fn hex_refuses_odd_length() {
    assert!(Hex::new("a").is_err());
    assert!(Hex::new("abc").is_err());
    assert!(Hex::new("00112").is_err());
}

#[test]
fn hex_refuses_other_characters() {
    assert!(Hex::new("0g").is_err());
    assert!(Hex::new("zz").is_err());
    assert!(Hex::new("+f").is_err());
    assert!(Hex::new("-1").is_err());
    assert!(Hex::new("0x").is_err());
    assert!(Hex::new(" 0").is_err());
    assert!(Hex::new("00 11").is_err());
    assert!(Hex::new("fc:94").is_err());
    assert!(Hex::new("/0").is_err());
    assert!(Hex::new(":0").is_err());
    assert!(Hex::new("@0").is_err());
    assert!(Hex::new("G0").is_err());
    assert!(Hex::new("`0").is_err());
}

#[test]
fn hex_refuses_text_that_is_not_ascii() {
    assert!(Hex::new("é").is_err());
    assert!(Hex::new("€0").is_err());
    assert!(Hex::new("00€").is_err());
    assert!(Hex::new("１２").is_err());
}

#[test]
fn base64_decodes_standard_text() {
    assert_eq!(Base64::new("aGVsbG8=").unwrap().into_bytes(), b"hello".to_vec());
    assert_eq!(Base64::new("").unwrap().into_bytes(), Vec::<u8>::new());
    assert_eq!(
        Base64::new("/JSwweWwmHxYQ5l2l+6ftw==").unwrap().into_bytes(),
        Hex::new("fc94b0c1e5b0987c5843997697ee9fb7").unwrap().into_bytes()
    );
}

#[test]
fn base64_refuses_malformed_text() {
    assert!(Base64::new("a").is_err());
    assert!(Base64::new("aGVsbG8==").is_err());
    assert!(Base64::new("aG=sbG8=").is_err());
    assert!(Base64::new("aGVsbG8*").is_err());
    assert!(Base64::new("aGVs bG8=").is_err());
    assert!(Base64::new("aGVsbG8=\n").is_err());
    assert!(Base64::new("=aGVsbG8").is_err());
    assert!(Base64::new("aGVsbG-_").is_err());
    assert!(Base64::new("aGVsbG9=").is_err());
}

#[test]
fn base64_from_decoded_keeps_bytes_and_maps_errors() {
    assert_eq!(Base64::from_decoded(Ok(vec![1, 2, 3])).unwrap().into_bytes(), vec![1, 2, 3]);
    assert!(Base64::from_decoded(Err(base64::DecodeError::InvalidLength)).is_err());
    assert!(Base64::from_decoded(Err(base64::DecodeError::InvalidByte(0, b'*'))).is_err());
    assert!(Base64::from_decoded(Err(base64::DecodeError::InvalidLastSymbol(3, b'9'))).is_err());
}

#[test]
fn both_forms_of_one_digest_draw_the_same() {
    let from_hex = randomart(Hex::new("fc94b0c1e5b0987c5843997697ee9fb7").unwrap());
    let from_base64 = randomart(Base64::new("/JSwweWwmHxYQ5l2l+6ftw==").unwrap());
    assert_eq!(from_hex, from_base64);
}

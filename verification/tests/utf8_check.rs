use wolf_system::encoding::validate_utf8;

#[test]
fn utf8_accepts_ascii_and_empty() {
    assert!(validate_utf8(b""));
    assert!(validate_utf8(b"hello world"));
    assert!(validate_utf8(&[0x00, 0x7f]));
}

#[test]
fn utf8_accepts_multibyte_scalars() {
    // two-byte (U+00E9), three-byte (U+20AC), four-byte (U+1F600)
    assert!(validate_utf8(&[0xc3, 0xa9]));
    assert!(validate_utf8(&[0xe2, 0x82, 0xac]));
    assert!(validate_utf8(&[0xf0, 0x9f, 0x98, 0x80]));
    assert!(validate_utf8("päx€🙂".as_bytes()));
    // the largest scalar, U+10FFFF
    assert!(validate_utf8(&[0xf4, 0x8f, 0xbf, 0xbf]));
    // boundary scalars around the surrogate range
    assert!(validate_utf8(&[0xed, 0x9f, 0xbf])); // U+D7FF
    assert!(validate_utf8(&[0xee, 0x80, 0x80])); // U+E000
}

#[test]
fn utf8_rejects_stray_and_truncated_sequences() {
    assert!(!validate_utf8(&[0x80])); // continuation byte alone
    assert!(!validate_utf8(&[0xc3])); // truncated two-byte
    assert!(!validate_utf8(&[0xe2, 0x82])); // truncated three-byte
    assert!(!validate_utf8(&[0xf0, 0x9f, 0x98])); // truncated four-byte
    assert!(!validate_utf8(&[0x61, 0xc3, 0x61])); // continuation missing
    assert!(!validate_utf8(&[0xf8, 0x80, 0x80, 0x80, 0x80])); // no such leading byte
    assert!(!validate_utf8(&[0xff]));
}

#[test]
fn utf8_rejects_overlong_encodings() {
    assert!(!validate_utf8(&[0xc0, 0xaf])); // two-byte slash
    assert!(!validate_utf8(&[0xc1, 0xbf]));
    assert!(!validate_utf8(&[0xe0, 0x80, 0xaf])); // three-byte slash
    assert!(!validate_utf8(&[0xf0, 0x80, 0x80, 0xaf])); // four-byte slash
}

#[test]
fn utf8_rejects_surrogates_and_out_of_range() {
    assert!(!validate_utf8(&[0xed, 0xa0, 0x80])); // U+D800
    assert!(!validate_utf8(&[0xed, 0xbf, 0xbf])); // U+DFFF
    assert!(!validate_utf8(&[0xf4, 0x90, 0x80, 0x80])); // U+110000
}

#[test]
fn utf8_agrees_with_std_on_samples() {
    let samples: Vec<Vec<u8>> = vec![
        b"plain".to_vec(),
        vec![0xc3, 0xa9, 0x21],
        vec![0xe0, 0xa0, 0x80],
        vec![0xe0, 0x9f, 0x80],
        vec![0xed, 0x9f, 0xbf, 0x40],
        vec![0xf1, 0x80, 0x80, 0x80],
        vec![0xf4, 0x8f, 0xbf, 0xbf, 0xbf],
        vec![0x61, 0x80],
        vec![0xc2, 0x80],
        vec![0xc2, 0x7f],
    ];
    for s in samples {
        assert_eq!(validate_utf8(&s), std::str::from_utf8(&s).is_ok(), "{:?}", s);
    }
}

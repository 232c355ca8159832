use strbound::validate::find_nul;
use strbound::validate::validate_utf8;

#[test]
fn accepts_ascii() {
    assert!(validate_utf8(b""));
    assert!(validate_utf8(b"hello, world"));
    assert!(validate_utf8(&[0x00, 0x7f]));
}

#[test]
fn accepts_well_formed_multibyte() {
    assert!(validate_utf8("héllo".as_bytes()));
    assert!(validate_utf8("日本語".as_bytes()));
    assert!(validate_utf8("𝄞 clef".as_bytes()));
    assert!(validate_utf8("\u{80}\u{7ff}\u{800}\u{d7ff}\u{e000}\u{ffff}\u{10000}\u{10ffff}".as_bytes()));
}

#[test]
fn rejects_lone_continuation_byte() {
    assert!(!validate_utf8(&[0x80]));
    assert!(!validate_utf8(&[0x61, 0xbf, 0x62]));
}

#[test]
fn rejects_truncated_tail() {
    assert!(!validate_utf8(&[0xc3]));
    assert!(!validate_utf8(&[0x61, 0xe2, 0x82]));
    assert!(!validate_utf8(&[0xf0, 0x9f, 0x98]));
}

#[test]
fn rejects_overlong_encodings() {
    assert!(!validate_utf8(&[0xc0, 0x80]));
    assert!(!validate_utf8(&[0xc1, 0xbf]));
    assert!(!validate_utf8(&[0xe0, 0x80, 0x80]));
    assert!(!validate_utf8(&[0xf0, 0x80, 0x80, 0x80]));
}

#[test]
fn rejects_surrogates() {
    assert!(!validate_utf8(&[0xed, 0xa0, 0x80]));
    assert!(!validate_utf8(&[0xed, 0xbf, 0xbf]));
    assert!(validate_utf8(&[0xed, 0x9f, 0xbf]));
    assert!(validate_utf8(&[0xee, 0x80, 0x80]));
}

#[test]
fn rejects_values_past_the_last_scalar() {
    assert!(!validate_utf8(&[0xf4, 0x90, 0x80, 0x80]));
    assert!(validate_utf8(&[0xf4, 0x8f, 0xbf, 0xbf]));
    assert!(!validate_utf8(&[0xf5, 0x80, 0x80, 0x80]));
    assert!(!validate_utf8(&[0xff]));
    assert!(!validate_utf8(&[0xfe, 0xfe, 0xff, 0xff]));
}

#[test]
fn agrees_with_std_on_every_two_byte_sequence() {
    for b0 in 0..=255u8 {
        for b1 in 0..=255u8 {
            let s = [b0, b1];
            assert_eq!(
                validate_utf8(&s),
                std::str::from_utf8(&s).is_ok(),
                "disagreement on {:?}",
                s
            );
        }
    }
}

#[test]
fn agrees_with_std_on_boundary_valued_sequences() {
    let edges: &[u8] = &[
        0x00, 0x01, 0x7f, 0x80, 0x8f, 0x90, 0x9f, 0xa0, 0xbf, 0xc0, 0xc1, 0xc2, 0xdf, 0xe0, 0xe1,
        0xec, 0xed, 0xee, 0xef, 0xf0, 0xf1, 0xf4, 0xf5, 0xf7, 0xf8, 0xff,
    ];
    for &b0 in edges {
        for &b1 in edges {
            for &b2 in edges {
                let s3 = [b0, b1, b2];
                assert_eq!(
                    validate_utf8(&s3),
                    std::str::from_utf8(&s3).is_ok(),
                    "disagreement on {:?}",
                    s3
                );
                for &b3 in edges {
                    let s4 = [b0, b1, b2, b3];
                    assert_eq!(
                        validate_utf8(&s4),
                        std::str::from_utf8(&s4).is_ok(),
                        "disagreement on {:?}",
                        s4
                    );
                }
            }
        }
    }
}

#[test]
fn find_nul_reports_the_first_nul() {
    assert_eq!(find_nul(b"abc\x00def"), Some(3));
    assert_eq!(find_nul(b"\x00"), Some(0));
    assert_eq!(find_nul(b"a\x00b\x00c"), Some(1));
    assert_eq!(find_nul(b"abc"), None);
    assert_eq!(find_nul(b""), None);
}

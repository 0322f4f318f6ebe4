use boundary_contract::encoding::validate_utf8;

#[test]
fn accepts_ascii_and_wellformed_multibyte() {
    let valid: [&[u8]; 8] = [
        b"",
        b"plain ascii",
        "caf\u{e9}".as_bytes(),
        "\u{7ff}".as_bytes(),
        "\u{800}".as_bytes(),
        "\u{ffff}".as_bytes(),
        "\u{10000}".as_bytes(),
        "\u{10ffff}".as_bytes(),
    ];
    for bytes in valid {
        assert!(validate_utf8(bytes), "rejected {:?}", bytes);
    }
}

#[test]
fn rejects_malformed_sequences() {
    let invalid: [&[u8]; 10] = [
        &[0x80],                     // lone continuation byte
        &[0xc3],                     // truncated two-byte scalar
        &[0xc3, 0x28],               // bad continuation byte
        &[0xc0, 0xaf],               // overlong two-byte encoding
        &[0xe0, 0x80, 0xaf],         // overlong three-byte encoding
        &[0xed, 0xa0, 0x80],         // surrogate half
        &[0xf0, 0x80, 0x80, 0x80],   // overlong four-byte encoding
        &[0xf4, 0x90, 0x80, 0x80],   // above the Unicode maximum
        &[0xf8, 0x80, 0x80, 0x80],   // five-byte leading pattern
        &[0x41, 0x42, 0xff],         // valid prefix, junk tail
    ];
    for bytes in invalid {
        assert!(!validate_utf8(bytes), "accepted {:?}", bytes);
    }
}

#[test]
fn agrees_with_std_on_exhaustive_short_inputs() {
    // Every byte string of length at most two, and a sweep of three-byte
    // strings around the interesting boundaries, judged exactly as the
    // standard library judges them.
    for a in 0..=255u8 {
        assert_eq!(validate_utf8(&[a]), std::str::from_utf8(&[a]).is_ok());
        for b in 0..=255u8 {
            let pair = [a, b];
            assert_eq!(
                validate_utf8(&pair),
                std::str::from_utf8(&pair).is_ok(),
                "disagreement on {:?}",
                pair
            );
        }
    }
    let leads = [0xdf, 0xe0, 0xe1, 0xed, 0xef, 0xf0, 0xf4];
    let follows = [0x00, 0x7f, 0x80, 0x8f, 0x9f, 0xa0, 0xbf, 0xc0, 0xff];
    for &a in &leads {
        for &b in &follows {
            for &c in &follows {
                let triple = [a, b, c];
                assert_eq!(
                    validate_utf8(&triple),
                    std::str::from_utf8(&triple).is_ok(),
                    "disagreement on {:?}",
                    triple
                );
            }
        }
    }
}

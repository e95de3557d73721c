//! The UTF-8 validator against the standard library's own notion of
//! well-formed UTF-8, and the guest text type around it.

use plugin_boundary::text::{validate_utf8, GuestText};

/// The validator must agree with `std::str::from_utf8` on every input.
fn agrees_with_std(bytes: &[u8]) {
    let own = validate_utf8(&bytes.to_vec());
    let std_ok = std::str::from_utf8(bytes).is_ok();
    assert_eq!(own, std_ok, "disagreement on {:?}", bytes);
}

#[test]
fn accepts_well_formed_sequences() {
    agrees_with_std(b"");
    agrees_with_std(b"plain ascii");
    agrees_with_std("caf\u{e9}".as_bytes());
    agrees_with_std("\u{7f}\u{80}\u{7ff}\u{800}\u{ffff}".as_bytes());
    agrees_with_std("\u{10000}\u{10ffff}".as_bytes());
    agrees_with_std("\u{d7ff}\u{e000}".as_bytes());
    for b in [b"".to_vec(), vec![0x00], vec![0x7F], vec![0xC2, 0x80], vec![0xDF, 0xBF]] {
        assert!(validate_utf8(&b));
        agrees_with_std(&b);
    }
}

#[test]
fn rejects_lone_continuation_byte() {
    assert!(!validate_utf8(&vec![0x80]));
    agrees_with_std(&[0x80]);
}

#[test]
fn rejects_malformed_sequences() {
    let cases: Vec<Vec<u8>> = vec![
        vec![0xC0, 0x80],              // overlong two-byte
        vec![0xC1, 0xBF],              // overlong two-byte
        vec![0xE0, 0x80, 0x80],        // overlong three-byte
        vec![0xED, 0xA0, 0x80],        // surrogate
        vec![0xF0, 0x80, 0x80, 0x80],  // overlong four-byte
        vec![0xF4, 0x90, 0x80, 0x80],  // above U+10FFFF
        vec![0xF5, 0x80, 0x80, 0x80],  // leader out of range
        vec![0xFF],                    // no such leader
        vec![0xC2],                    // truncated two-byte
        vec![0xE2, 0x82],              // truncated three-byte
        vec![0xF0, 0x9F, 0x8E],        // truncated four-byte
        vec![0x61, 0xC2, 0x61],        // continuation missing mid-string
        vec![0xE2, 0x28, 0xA1],        // bad continuation byte
    ];
    for bytes in cases {
        assert!(!validate_utf8(&bytes), "accepted {:?}", bytes);
        agrees_with_std(&bytes);
    }
}

#[test]
fn agrees_with_std_on_boundary_leaders() {
    // Every leader class edge, with every continuation edge.
    let interesting = [
        0x00u8, 0x7F, 0x80, 0x8F, 0x90, 0x9F, 0xA0, 0xBF, 0xC0, 0xC1, 0xC2, 0xDF, 0xE0, 0xE1,
        0xEC, 0xED, 0xEE, 0xEF, 0xF0, 0xF1, 0xF3, 0xF4, 0xF5, 0xFF,
    ];
    for &a in &interesting {
        agrees_with_std(&[a]);
        for &b in &interesting {
            agrees_with_std(&[a, b]);
            agrees_with_std(&[a, b, 0x80]);
            agrees_with_std(&[a, b, 0x80, 0x80]);
        }
    }
}

#[test]
fn guest_text_keeps_exact_bytes() {
    let text = GuestText::from_bytes(b"keep these".to_vec()).expect("valid bytes");
    assert_eq!(text.byte_len(), 10);
    assert_eq!(text.as_bytes().as_slice(), b"keep these");
    assert_eq!(text.into_bytes(), b"keep these".to_vec());
}

#[test]
fn guest_text_rejects_invalid_bytes() {
    assert!(GuestText::from_bytes(vec![0x61, 0x80]).is_none());
}

use winter_lily::util::{check_copy_ranges, check_utf8, const_parse_u32, insert_elems, AccessType};

#[test]
fn insert_elems_applies_updates_in_order() {
    let base = [0u32; 8];
    let out = insert_elems(base, [(1, 10), (3, 30), (1, 11)]);
    assert_eq!(out, [0, 11, 0, 30, 0, 0, 0, 0]);
    let unchanged: [u32; 4] = insert_elems([9, 9, 9, 9], []);
    assert_eq!(unchanged, [9, 9, 9, 9]);
}

#[test]
fn parse_decimal_and_hex() {
    assert_eq!(const_parse_u32("1234", 10), 1234);
    assert_eq!(const_parse_u32("0", 10), 0);
    assert_eq!(const_parse_u32("ff", 16), 255);
    assert_eq!(const_parse_u32("FF", 16), 255);
    assert_eq!(const_parse_u32("101", 2), 5);
    assert_eq!(const_parse_u32("z", 36), 35);
    assert_eq!(const_parse_u32("4294967295", 10), u32::MAX);
}

#[test]
fn utf8_accepts_well_formed() {
    assert!(check_utf8(b""));
    assert!(check_utf8(b"plain ascii"));
    assert!(check_utf8("héllo wörld".as_bytes()));
    assert!(check_utf8("\u{0800}\u{FFFD}".as_bytes()));
    assert!(check_utf8("\u{10FFFF}\u{1F600}".as_bytes()));
}

#[test]
fn utf8_rejects_malformed() {
    // Bare continuation byte.
    assert!(!check_utf8(&[0x80]));
    // Truncated two-byte sequence.
    assert!(!check_utf8(&[0xC3]));
    // Overlong encodings.
    assert!(!check_utf8(&[0xC0, 0x80]));
    assert!(!check_utf8(&[0xE0, 0x80, 0x80]));
    assert!(!check_utf8(&[0xF0, 0x80, 0x80, 0x80]));
    // Surrogate range.
    assert!(!check_utf8(&[0xED, 0xA0, 0x80]));
    // Beyond the last scalar.
    assert!(!check_utf8(&[0xF4, 0x90, 0x80, 0x80]));
    // Invalid leading byte.
    assert!(!check_utf8(&[0xF8, 0x80, 0x80, 0x80, 0x80]));
    // Continuation missing mid-sequence.
    assert!(!check_utf8(&[0xE2, 0x28, 0xA1]));
}

#[test]
fn copy_range_overlap_detection() {
    // Disjoint ranges pass.
    assert!(check_copy_ranges(0x1000, 0x2000, 16, 8).is_ok());
    assert!(check_copy_ranges(0x2000, 0x1000, 16, 8).is_ok());
    // Destination inside the source range.
    let e = check_copy_ranges(0x1000, 0x1010, 16, 8).unwrap_err();
    assert_eq!(e.ptr, 0x1010);
    assert_eq!(e.access_ty, AccessType::Overlap);
    // Source inside the destination range.
    let e = check_copy_ranges(0x1010, 0x1000, 16, 8).unwrap_err();
    assert_eq!(e.ptr, 0x1010);
    // Adjacent ranges touch but do not overlap.
    assert!(check_copy_ranges(0x1000, 0x1080, 16, 8).is_ok());
    // A zero-length copy never overlaps.
    assert!(check_copy_ranges(0x1000, 0x1000, 0, 8).is_ok());
}

use winter_lily::error::Error;
use winter_lily::handle::{Handle, HandleTable};

const BASE: usize = 0x1000_0000;

fn io_handle(fd: i64) -> Handle {
    Handle { ty: 3, blob1: 0, blob2: 0, fd }
}

#[test]
fn insert_then_validate_roundtrip() {
    let mut t = HandleTable::new(BASE);
    let rec = Handle { ty: 7, blob1: 0xdead, blob2: -5, fd: 4 };
    let p = t.insert_handle(rec).unwrap();
    let got = t.try_deref(p).unwrap();
    assert_eq!(*got, rec);
}

#[test]
fn close_then_validate_fails() {
    let mut t = HandleTable::new(BASE);
    let p = t.insert_handle(io_handle(4)).unwrap();
    let (fd2, fd) = t.close_handle(p, false).unwrap();
    assert_eq!(fd2, None);
    assert_eq!(fd, Some(4));
    assert_eq!(t.try_deref(p).unwrap_err(), Error::InvalidHandle);
}

#[test]
fn full_table_insert_reports_exhaustion() {
    let mut t = HandleTable::new(BASE);
    for i in 0..512 {
        t.insert_handle(io_handle(i as i64)).unwrap();
    }
    let before: Vec<Handle> = t.slots.clone();
    let e = t.insert_handle(io_handle(999)).unwrap_err();
    assert_eq!(e, Error::ResourceLimitExhausted);
    assert_eq!(t.slots, before);
}

#[test]
fn handle_value_is_slot_address() {
    let mut t = HandleTable::new(BASE);
    let p0 = t.insert_handle(io_handle(0)).unwrap();
    let p1 = t.insert_handle(io_handle(1)).unwrap();
    assert_eq!(p0, BASE);
    assert_eq!(p1, BASE + 32);
}

#[test]
fn misaligned_and_foreign_values_rejected() {
    let mut t = HandleTable::new(BASE);
    let p = t.insert_handle(io_handle(0)).unwrap();
    assert!(t.try_deref(p + 1).is_err());
    assert!(t.try_deref(p + 16).is_err());
    assert!(t.try_deref(BASE - 32).is_err());
    assert!(t.try_deref(BASE + 512 * 32).is_err());
    assert!(t.try_deref(p).is_ok());
}

#[test]
fn rotating_hint_reuses_freed_slot_after_scan() {
    let mut t = HandleTable::new(BASE);
    let p0 = t.insert_handle(io_handle(0)).unwrap();
    let _p1 = t.insert_handle(io_handle(1)).unwrap();
    // The scan starts at the hint (slot 1), so the next free slot past it
    // is claimed, not the freed slot 0.
    t.close_handle(p0, false).unwrap();
    let p2 = t.insert_handle(io_handle(2)).unwrap();
    assert_eq!(p2, BASE + 2 * 32);
    // Once every later slot is occupied the scan wraps and finds slot 0.
    for i in 3..512 {
        t.insert_handle(io_handle(i as i64)).unwrap();
    }
    let p3 = t.insert_handle(io_handle(900)).unwrap();
    assert_eq!(p3, p0);
}

#[test]
fn check_type_masks_subtype_bits() {
    let h = Handle { ty: 0b1011, blob1: 0, blob2: 0, fd: -1 };
    assert!(h.check_type(0b0011, 0b1000).is_ok());
    assert!(h.check_type(0b1011, 0).is_ok());
    assert_eq!(h.check_type(0b0011, 0).unwrap_err(), Error::InvalidHandle);
}

#[test]
fn descriptor_encodings() {
    let h = Handle { ty: 1, blob1: 0, blob2: -9, fd: 5 };
    assert_eq!(h.borrow_fd(), Some(5));
    assert_eq!(h.borrow_fd2(), Some(9));
    let h2 = Handle { ty: 1, blob1: 0, blob2: 44, fd: -1 };
    assert_eq!(h2.borrow_fd(), None);
    assert_eq!(h2.borrow_fd2(), None);
    let mut h3 = Handle { ty: 1, blob1: 7, blob2: -3, fd: 8 };
    let (fd2, fd) = h3.close(true);
    assert_eq!(fd2, Some(3));
    assert_eq!(fd, Some(8));
    assert_eq!(h3, Handle::zeroed());
}

#[test]
fn ident_returns_tag() {
    let h = Handle { ty: 42, blob1: 0, blob2: 0, fd: -1 };
    assert_eq!(h.ident(), 42);
}

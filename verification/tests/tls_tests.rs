use winter_lily::error::Error;
use winter_lily::tls::{
    alloc_dyn_tls, alloc_static_tls, needs_catch_up, new_master_tcb, new_thread_tcb, tls_resolve,
    update_tls, TlsDesc, TLS_HALF,
};

#[test]
fn static_allocation_aligns_and_bumps() {
    let mut m = new_master_tcb();
    assert_eq!(m.load_size, 32);
    let off = alloc_static_tls(&mut m, 100, 16).unwrap();
    assert_eq!(off, 32);
    assert_eq!(m.load_size, 132);
    assert_eq!(m.version, 1);
    // The next allocation rounds 132 up to the requested alignment.
    let off = alloc_static_tls(&mut m, 8, 64).unwrap();
    assert_eq!(off, 192);
    assert_eq!(m.load_size, 200);
    assert_eq!(m.version, 2);
    assert_eq!(m.dyn_size, 0);
}

#[test]
fn static_allocation_rejects_past_half_block() {
    let mut m = new_master_tcb();
    let e = alloc_static_tls(&mut m, TLS_HALF, 1).unwrap_err();
    assert_eq!(e, Error::AllocError);
    // Rejection leaves the master untouched.
    assert_eq!(m.load_size, 32);
    assert_eq!(m.version, 0);
}

#[test]
fn dynamic_allocation_tracks_magnitude() {
    let mut m = new_master_tcb();
    let mag = alloc_dyn_tls(&mut m, 100, 64).unwrap();
    assert_eq!(mag, 128);
    assert_eq!(m.dyn_size, 128);
    assert_eq!(m.load_size, 32);
    assert_eq!(m.version, 1);
    let e = alloc_dyn_tls(&mut m, TLS_HALF + 1, 1).unwrap_err();
    assert_eq!(e, Error::AllocError);
    assert_eq!(m.dyn_size, 128);
}

#[test]
fn catch_up_covers_exactly_the_new_ranges() {
    let mut m = new_master_tcb();
    alloc_static_tls(&mut m, 5000, 8).unwrap();
    alloc_dyn_tls(&mut m, 100, 16).unwrap();
    let mut t = new_thread_tcb();
    assert!(needs_catch_up(&t, &m));
    let plan = update_tls(&mut t, &m);
    assert_eq!(t, m);
    let s = plan.static_copy.unwrap();
    assert_eq!(s.copy_from, 32);
    assert_eq!(s.len, 5000);
    assert_eq!(s.protect_from, 0);
    assert_eq!(s.protect_len, 5032);
    let d = plan.dyn_copy.unwrap();
    assert_eq!(d.copy_from, 112);
    assert_eq!(d.len, 112);
    assert_eq!(d.protect_from, 4096);
    assert_eq!(d.protect_len, 4096);
}

#[test]
fn catch_up_is_idempotent_without_master_growth() {
    let mut m = new_master_tcb();
    alloc_static_tls(&mut m, 64, 8).unwrap();
    let mut t = new_thread_tcb();
    let first = update_tls(&mut t, &m);
    assert!(first.static_copy.is_some());
    let after_first = t;
    // A redundant call with no master growth copies nothing and changes
    // nothing.
    let second = update_tls(&mut t, &m);
    assert!(second.static_copy.is_none());
    assert!(second.dyn_copy.is_none());
    assert_eq!(t, after_first);
    assert!(!needs_catch_up(&t, &m));
}

#[test]
fn racing_catch_up_converges() {
    let mut m = new_master_tcb();
    alloc_static_tls(&mut m, 64, 8).unwrap();
    // Two threads in different states both catch up against the same
    // master after it grew exactly once: identical records result.
    let mut ta = new_thread_tcb();
    let mut tb = new_thread_tcb();
    update_tls(&mut tb, &m); // tb already caught up once
    alloc_static_tls(&mut m, 32, 8).unwrap();
    update_tls(&mut ta, &m);
    update_tls(&mut tb, &m);
    assert_eq!(ta, tb);
    assert_eq!(ta.load_size, m.load_size);
    assert_eq!(ta.dyn_size, m.dyn_size);
    assert_eq!(ta.version, m.version);
}

#[test]
fn tls_descriptor_resolution() {
    let d = TlsDesc { module: 0x1000, offset: 0x20 };
    assert_eq!(tls_resolve(&d, 0x7000_0000), 0x7000_1020);
}

use winter_lily::sync::{BackoffAction, Futex, LazyLock, OnceLock, lock_backoff, FUTEX_EXCLUSIVE};

#[test]
fn once_lock_initializes_exactly_once() {
    let mut l: OnceLock<u32> = OnceLock::new();
    assert!(l.get().is_none());
    let v = *l.get_or_init(|| 7);
    assert_eq!(v, 7);
    // The second initializer never runs; the first value is kept.
    let v = *l.get_or_init(|| 9);
    assert_eq!(v, 7);
    assert_eq!(l.get().copied(), Some(7));
}

#[test]
fn once_lock_set_rejects_second_value() {
    let mut l: OnceLock<u32> = OnceLock::new();
    assert!(l.set(1).is_ok());
    assert_eq!(l.set(2), Err(2));
    assert_eq!(l.into_inner(), Some(1));
}

#[test]
fn once_lock_new_init_and_take() {
    let mut l: OnceLock<u32> = OnceLock::new_init(5);
    assert_eq!(l.get().copied(), Some(5));
    assert_eq!(l.take(), Some(5));
    assert!(l.get().is_none());
    assert_eq!(l.take(), None);
}

#[test]
fn once_lock_try_init_failure_leaves_empty() {
    let mut l: OnceLock<u32> = OnceLock::new();
    let r: Result<&u32, i32> = l.get_or_try_init(|| Err(-3));
    assert_eq!(r.unwrap_err(), -3);
    assert!(l.get().is_none());
    let r: Result<&u32, i32> = l.get_or_try_init(|| Ok(11));
    assert_eq!(*r.unwrap(), 11);
    // An initialized latch ignores the new initializer entirely.
    let r: Result<&u32, i32> = l.get_or_try_init(|| Err(-9));
    assert_eq!(*r.unwrap(), 11);
}

#[test]
fn once_lock_mut_accessors() {
    let mut l: OnceLock<u32> = OnceLock::new();
    assert!(l.get_mut().is_none());
    let v = l.get_or_init_mut(|| 1);
    *v += 5;
    assert_eq!(l.get().copied(), Some(6));
    let r: Result<&mut u32, i32> = l.get_or_try_init_mut(|| Err(-1));
    *r.unwrap() += 1;
    assert_eq!(*l.get_mut().unwrap(), 7);
    l.force_unlock();
    assert_eq!(l.get().copied(), Some(7));
}

#[test]
fn lazy_lock_forces_once() {
    let mut l: LazyLock<u32, fn() -> u32> = LazyLock::new(|| 40 + 2);
    assert!(l.get().is_none());
    assert_eq!(*l.force(), 42);
    assert_eq!(*l.force(), 42);
    assert_eq!(l.get().copied(), Some(42));
    let mut p: LazyLock<u32, fn() -> u32> = LazyLock::new_init(9);
    assert_eq!(*p.force_mut(), 9);
    *p.get_mut().unwrap() = 10;
    assert_eq!(*p.force(), 10);
}

#[test]
fn futex_word_transitions() {
    let mut f = Futex::new();
    assert!(!f.is_locked());
    assert!(f.try_lock_exclusive());
    assert!(f.is_locked());
    assert!(f.is_locked_exclusive());
    assert!(!f.try_lock_exclusive());
    assert!(!f.try_lock_shared());
    f.unlock_exclusive();
    assert!(!f.is_locked());

    assert!(f.try_lock_shared());
    assert!(f.try_lock_shared());
    assert_eq!(f.word, 2);
    assert!(!f.is_locked_exclusive());
    assert!(!f.try_lock_exclusive());
    f.unlock_shared();
    f.unlock_shared();
    assert!(!f.is_locked());

    f.lock_exclusive();
    assert_eq!(f.word, FUTEX_EXCLUSIVE);
    f.downgrade();
    assert_eq!(f.word, 1);
    f.unlock_shared();

    f.lock();
    assert!(f.is_locked_exclusive());
    f.unlock();
    assert!(f.try_lock());
    f.unlock();
}

#[test]
fn three_phase_backoff() {
    assert_eq!(lock_backoff(0), BackoffAction::Spin);
    assert_eq!(lock_backoff(31), BackoffAction::Spin);
    assert_eq!(lock_backoff(32), BackoffAction::Yield);
    assert_eq!(lock_backoff(255), BackoffAction::Yield);
    assert_eq!(lock_backoff(256), BackoffAction::Wait);
    assert_eq!(lock_backoff(u16::MAX), BackoffAction::Wait);
}

//! The shared synchronization primitives: a write-once latch (compute-once,
//! race-tolerant in the concurrent implementation; modeled here as its
//! state machine), a lazily initialized cell over it, and the futex-backed
//! reader/writer lock word with its three-phase acquisition backoff.

use vstd::prelude::*;

verus! {

/// A write-once latch: empty until exactly one initialization stores a
/// value, which is never replaced. `locked` is the short-lived bit an
/// in-progress initialization holds; entering an operation that would wait
/// on it forever (reentrant initialization) is excluded by contract.
pub struct OnceLock<T> {
    /// Whether an initialization is in progress.
    pub locked: bool,
    /// The stored value, once initialized.
    pub value: Option<T>,
}

impl<T> OnceLock<T> {
    /// Constructs a new uninitialized latch.
    pub fn new() -> (r: OnceLock<T>)
        ensures
            !r.locked,
            r.value is None,
    {
        OnceLock { locked: false, value: None }
    }

    /// Constructs a latch that is already initialized to `val`.
    pub fn new_init(val: T) -> (r: OnceLock<T>)
        ensures
            !r.locked,
            r.value == Some(val),
    {
        OnceLock { locked: false, value: Some(val) }
    }

    /// Takes the inner value, if any; ownership of `self` makes this safe.
    pub fn into_inner(self) -> (r: Option<T>)
        ensures
            r == self.value,
    {
        self.value
    }

    /// Takes the inner value, if any, resetting the latch to uninitialized.
    pub fn take(&mut self) -> (r: Option<T>)
        ensures
            r == old(self).value,
            final(self).value is None,
            !final(self).locked,
    {
        self.locked = false;
        self.value.take()
    }

    /// Forcibly clears the initialization lock bit.
    pub fn force_unlock(&mut self)
        ensures
            !final(self).locked,
            final(self).value == old(self).value,
    {
        self.locked = false;
    }

    /// The stored value, if initialization has completed.
    pub fn get(&self) -> (r: Option<&T>)
        ensures
            match r {
                Some(p) => self.value == Some(*p),
                None => self.value is None,
            },
    {
        match &self.value {
            Some(v) => Some(v),
            None => None,
        }
    }

    /// The stored value, if initialization has completed.
    pub fn get_mut(&mut self) -> (r: Option<&mut T>)
        ensures
            match r {
                Some(p) => old(self).value == Some(*p) && final(self).value == Some(*final(p))
                    && final(self).locked == old(self).locked,
                None => old(self).value is None && *final(self) == *old(self),
            },
    {
        match &mut self.value {
            Some(v) => Some(v),
            None => None,
        }
    }

    /// Stores `val` if the latch is still empty; a latch that already holds
    /// a value rejects the new one, handing it back.
    pub fn set(&mut self, val: T) -> (r: Result<(), T>)
        requires
            !old(self).locked,
        ensures
            !final(self).locked,
            match r {
                Ok(()) => old(self).value is None && final(self).value == Some(val),
                Err(v) => v == val && *final(self) == *old(self) && old(self).value is Some,
            },
    {
        if self.value.is_some() {
            Err(val)
        } else {
            self.value = Some(val);
            Ok(())
        }
    }

    /// Returns the stored value, running `f` to produce it exactly once if
    /// the latch is still empty. A reentrant call from inside the
    /// initializer is excluded: it could only wait on itself.
    pub fn get_or_init<F: FnOnce() -> T>(&mut self, f: F) -> (r: &T)
        requires
            !old(self).locked,
            old(self).value is None ==> call_requires(f, ()),
        ensures
            !final(self).locked,
            match old(self).value {
                Some(v) => *r == v && final(self).value == old(self).value,
                None => call_ensures(f, (), *r) && final(self).value == Some(*r),
            },
    {
        if self.value.is_none() {
            let v = f();
            self.value = Some(v);
        }
        match &self.value {
            Some(v) => v,
            None => vstd::pervasive::unreached(),
        }
    }

    /// As `get_or_init`, through an exclusive reference.
    pub fn get_or_init_mut<F: FnOnce() -> T>(&mut self, f: F) -> (r: &mut T)
        requires
            !old(self).locked,
            old(self).value is None ==> call_requires(f, ()),
        ensures
            !final(self).locked,
            final(self).value == Some(*final(r)),
            match old(self).value {
                Some(v) => *r == v,
                None => call_ensures(f, (), *r),
            },
    {
        if self.value.is_none() {
            let v = f();
            self.value = Some(v);
        }
        match &mut self.value {
            Some(v) => v,
            None => vstd::pervasive::unreached(),
        }
    }

    /// Returns the stored value, running the fallible `f` once if the latch
    /// is empty; `f`'s failure leaves the latch empty and is handed back.
    pub fn get_or_try_init<E, F: FnOnce() -> Result<T, E>>(&mut self, f: F) -> (r: Result<&T, E>)
        requires
            !old(self).locked,
            old(self).value is None ==> call_requires(f, ()),
        ensures
            !final(self).locked,
            old(self).value matches Some(v) ==> (r matches Ok(p) && *p == v && final(self).value
                == old(self).value),
            old(self).value is None ==> match r {
                Ok(p) => call_ensures(f, (), Ok(*p)) && final(self).value == Some(*p),
                Err(e) => call_ensures(f, (), Err(e)) && final(self).value is None,
            },
    {
        if self.value.is_none() {
            match f() {
                Ok(v) => {
                    self.value = Some(v);
                },
                Err(e) => {
                    return Err(e);
                },
            }
        }
        match &self.value {
            Some(v) => Ok(v),
            None => vstd::pervasive::unreached(),
        }
    }

    /// As `get_or_try_init`, through an exclusive reference.
    pub fn get_or_try_init_mut<E, F: FnOnce() -> Result<T, E>>(&mut self, f: F) -> (r: Result<
        &mut T,
        E,
    >)
        requires
            !old(self).locked,
            old(self).value is None ==> call_requires(f, ()),
        ensures
            !final(self).locked,
            match r {
                Ok(p) => final(self).value == Some(*final(p)) && match old(self).value {
                    Some(v) => *p == v,
                    None => call_ensures(f, (), Ok(*p)),
                },
                Err(e) => old(self).value is None && call_ensures(f, (), Err(e))
                    && final(self).value is None,
            },
    {
        if self.value.is_none() {
            match f() {
                Ok(v) => {
                    self.value = Some(v);
                },
                Err(e) => {
                    return Err(e);
                },
            }
        }
        match &mut self.value {
            Some(v) => Ok(v),
            None => vstd::pervasive::unreached(),
        }
    }
}

/// A lazily initialized cell: a write-once latch plus the initializer that
/// fills it on first use.
pub struct LazyLock<T, F> {
    /// The latch holding the computed value.
    pub once_lock: OnceLock<T>,
    /// The initializer, consumed by the first forcing.
    pub init_fn: Option<F>,
}

impl<T, F> LazyLock<T, F> {
    /// Constructs an empty cell with initializer `val`.
    pub fn new(val: F) -> (r: LazyLock<T, F>)
        ensures
            !r.once_lock.locked,
            r.once_lock.value is None,
            r.init_fn == Some(val),
    {
        LazyLock { once_lock: OnceLock::new(), init_fn: Some(val) }
    }

    /// Constructs a cell already holding `val`; no initializer remains.
    pub fn new_init(val: T) -> (r: LazyLock<T, F>)
        ensures
            !r.once_lock.locked,
            r.once_lock.value == Some(val),
            r.init_fn is None,
    {
        LazyLock { once_lock: OnceLock::new_init(val), init_fn: None }
    }

    /// The stored value, if first use has happened.
    pub fn get(&self) -> (r: Option<&T>)
        ensures
            match r {
                Some(p) => self.once_lock.value == Some(*p),
                None => self.once_lock.value is None,
            },
    {
        self.once_lock.get()
    }

    /// The stored value, if first use has happened.
    pub fn get_mut(&mut self) -> (r: Option<&mut T>)
        ensures
            match r {
                Some(p) => old(self).once_lock.value == Some(*p) && final(self).once_lock.value
                    == Some(*final(p)) && final(self).init_fn == old(self).init_fn,
                None => old(self).once_lock.value is None && *final(self) == *old(self),
            },
    {
        self.once_lock.get_mut()
    }
}

impl<T, F: FnOnce() -> T> LazyLock<T, F> {
    /// Returns the value, consuming the initializer to compute it on the
    /// first call; later calls return the same stored value.
    pub fn force(&mut self) -> (r: &T)
        requires
            !old(self).once_lock.locked,
            old(self).once_lock.value is None ==> (old(self).init_fn matches Some(f)
                && call_requires(f, ())),
        ensures
            !final(self).once_lock.locked,
            match old(self).once_lock.value {
                Some(v) => *r == v && final(self).once_lock.value == old(self).once_lock.value,
                None => call_ensures(old(self).init_fn->Some_0, (), *r)
                    && final(self).once_lock.value == Some(*r) && final(self).init_fn is None,
            },
    {
        if self.once_lock.get().is_none() {
            let f = match self.init_fn.take() {
                Some(f) => f,
                None => vstd::pervasive::unreached(),
            };
            let v = f();
            let _ = self.once_lock.set(v);
        }
        match self.once_lock.get() {
            Some(v) => v,
            None => vstd::pervasive::unreached(),
        }
    }

    /// As `force`, through an exclusive reference.
    pub fn force_mut(&mut self) -> (r: &mut T)
        requires
            !old(self).once_lock.locked,
            old(self).once_lock.value is None ==> (old(self).init_fn matches Some(f)
                && call_requires(f, ())),
        ensures
            !final(self).once_lock.locked,
            final(self).once_lock.value == Some(*final(r)),
            match old(self).once_lock.value {
                Some(v) => *r == v,
                None => call_ensures(old(self).init_fn->Some_0, (), *r),
            },
    {
        if self.once_lock.get().is_none() {
            let f = match self.init_fn.take() {
                Some(f) => f,
                None => vstd::pervasive::unreached(),
            };
            let v = f();
            let _ = self.once_lock.set(v);
        }
        match self.once_lock.get_mut() {
            Some(v) => v,
            None => vstd::pervasive::unreached(),
        }
    }
}

/// The value of the lock word while an exclusive holder owns the lock.
pub const FUTEX_EXCLUSIVE: u32 = 0x8000_0000;

/// The shared/exclusive lock over a single 32-bit word: zero when
/// unlocked, the top bit for an exclusive holder, any other nonzero value
/// counting shared holders. Acquisition that would block (the word held
/// against the request) is excluded by contract here; the caller drives
/// the retry/backoff loop with `lock_backoff` and the `try_` operations.
pub struct Futex {
    /// The lock word.
    pub word: u32,
}

impl Futex {
    /// A new, unlocked lock.
    pub fn new() -> (r: Futex)
        ensures
            r.word == 0,
    {
        Futex { word: 0 }
    }

    /// Whether any holder exists.
    pub fn is_locked(&self) -> (r: bool)
        ensures
            r <==> self.word != 0,
    {
        self.word != 0
    }

    /// Whether an exclusive holder exists (or the shared count has wrapped
    /// into the exclusive bit, which blocks further shared holders).
    pub fn is_locked_exclusive(&self) -> (r: bool)
        ensures
            r <==> self.word >= FUTEX_EXCLUSIVE,
    {
        let w = self.word;
        proof {
            assert((w & 0x8000_0000u32) != 0 <==> w >= 0x8000_0000u32) by (bit_vector);
        }
        (w & 0x8000_0000) != 0
    }

    /// Claims the exclusive side if the word is free.
    pub fn try_lock_exclusive(&mut self) -> (r: bool)
        ensures
            old(self).word == 0 ==> r && final(self).word == FUTEX_EXCLUSIVE,
            old(self).word != 0 ==> !r && *final(self) == *old(self),
    {
        if self.word == 0 {
            self.word = FUTEX_EXCLUSIVE;
            true
        } else {
            false
        }
    }

    /// Adds a shared holder if no exclusive holder exists. The count may
    /// wrap into the exclusive bit, which then blocks any further shared
    /// acquisition until holders drain back below it.
    pub fn try_lock_shared(&mut self) -> (r: bool)
        ensures
            old(self).word < FUTEX_EXCLUSIVE ==> r && final(self).word == old(self).word + 1,
            old(self).word >= FUTEX_EXCLUSIVE ==> !r && *final(self) == *old(self),
    {
        if self.word < FUTEX_EXCLUSIVE {
            self.word = self.word + 1;
            true
        } else {
            false
        }
    }

    /// Acquires the exclusive side; the word must be free, or the caller
    /// would block.
    pub fn lock_exclusive(&mut self)
        requires
            old(self).word == 0,
        ensures
            final(self).word == FUTEX_EXCLUSIVE,
    {
        self.word = FUTEX_EXCLUSIVE;
    }

    /// Acquires the shared side; no exclusive holder may exist, or the
    /// caller would block.
    pub fn lock_shared(&mut self)
        requires
            old(self).word < FUTEX_EXCLUSIVE,
        ensures
            final(self).word == old(self).word + 1,
    {
        self.word = self.word + 1;
    }

    /// Releases the exclusive side.
    pub fn unlock_exclusive(&mut self)
        requires
            old(self).word >= FUTEX_EXCLUSIVE,
        ensures
            final(self).word == 0,
    {
        self.word = 0;
    }

    /// Releases one shared holder.
    pub fn unlock_shared(&mut self)
        requires
            1 <= old(self).word < FUTEX_EXCLUSIVE,
        ensures
            final(self).word == old(self).word - 1,
    {
        self.word = self.word - 1;
    }

    /// Downgrades an exclusively held lock directly to single-reader-held,
    /// with no unlocked window in between.
    pub fn downgrade(&mut self)
        requires
            old(self).word >= FUTEX_EXCLUSIVE,
        ensures
            final(self).word == 1,
    {
        self.word = 1;
    }

    /// Acquires the lock's mutual-exclusion side.
    pub fn lock(&mut self)
        requires
            old(self).word == 0,
        ensures
            final(self).word == FUTEX_EXCLUSIVE,
    {
        self.lock_exclusive();
    }

    /// Tries the mutual-exclusion side.
    pub fn try_lock(&mut self) -> (r: bool)
        ensures
            old(self).word == 0 ==> r && final(self).word == FUTEX_EXCLUSIVE,
            old(self).word != 0 ==> !r && *final(self) == *old(self),
    {
        self.try_lock_exclusive()
    }

    /// Releases the mutual-exclusion side.
    pub fn unlock(&mut self)
        requires
            old(self).word >= FUTEX_EXCLUSIVE,
        ensures
            final(self).word == 0,
    {
        self.unlock_exclusive();
    }
}

/// What a contended acquisition does at a given retry step.
#[derive(Clone, Copy, Debug, PartialEq, Eq, Structural)]
pub enum BackoffAction {
    /// Spin briefly in place.
    Spin,
    /// Yield the processor voluntarily.
    Yield,
    /// Block in the kernel until the word changes.
    Wait,
}

/// The three-phase backoff an acquisition loop follows once contention
/// persists: a short spin, then voluntary yields, then kernel waits —
/// trading syscall overhead for low latency under light contention.
pub fn lock_backoff(step: u16) -> (r: BackoffAction)
    ensures
        step < 32 ==> r == BackoffAction::Spin,
        32 <= step < 256 ==> r == BackoffAction::Yield,
        step >= 256 ==> r == BackoffAction::Wait,
{
    if step < 32 {
        BackoffAction::Spin
    } else if step < 256 {
        BackoffAction::Yield
    } else {
        BackoffAction::Wait
    }
}

} // verus!

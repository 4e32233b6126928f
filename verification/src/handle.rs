//! The per-thread handle table: a fixed array of 512 validated resource
//! records. A handle value handed to foreign code is the raw address of its
//! slot; it carries no ownership and must be re-validated on every use.

use vstd::prelude::*;

use crate::error::Error;

verus! {

/// Number of slots in a handle table.
pub const NHANDLES: usize = 512;

/// Size in bytes of one slot; handle values are 32-byte aligned addresses.
pub const HANDLE_SLOT_SIZE: usize = 32;

/// One resource record. A zero type tag marks the slot free. `fd` owns a
/// host descriptor when non-negative; `blob2` owns a secondary descriptor
/// when negative, storing its negation.
#[derive(Clone, Copy, Debug, PartialEq, Eq, Structural)]
pub struct Handle {
    /// Type tag; zero means the slot is free.
    pub ty: usize,
    /// First payload word (an address or integer owned by the subsystem).
    pub blob1: usize,
    /// Second payload word; a negative value encodes an owned descriptor.
    pub blob2: i64,
    /// Primary host descriptor; negative means none is owned.
    pub fd: i64,
}

impl Handle {
    /// The all-zero record that marks a free slot.
    pub open spec fn spec_zeroed() -> Handle {
        Handle { ty: 0, blob1: 0, blob2: 0, fd: 0 }
    }

    /// Descriptor fields small enough to hand back to the host as `i32`.
    pub open spec fn fds_in_range(self) -> bool {
        &&& -0x8000_0000 <= self.fd < 0x8000_0000
        &&& -0x8000_0000 < self.blob2 < 0x8000_0000_0000_0000
    }

    /// Returns the all-zero record.
    pub fn zeroed() -> (r: Handle)
        ensures
            r == Handle::spec_zeroed(),
    {
        Handle { ty: 0, blob1: 0, blob2: 0, fd: 0 }
    }

    /// The record's type tag.
    pub fn ident(&self) -> (r: usize)
        ensures
            r == self.ty,
    {
        self.ty
    }

    /// The owned primary descriptor, if any.
    pub fn borrow_fd(&self) -> (r: Option<i32>)
        requires
            self.fds_in_range(),
        ensures
            self.fd >= 0 ==> r == Some(self.fd as i32),
            self.fd < 0 ==> r is None,
    {
        if self.fd >= 0 {
            Some(self.fd as i32)
        } else {
            None
        }
    }

    /// The owned secondary descriptor, if any: `blob2` stores its negation.
    pub fn borrow_fd2(&self) -> (r: Option<i32>)
        requires
            self.fds_in_range(),
        ensures
            self.blob2 < 0 ==> r == Some((-self.blob2) as i32),
            self.blob2 >= 0 ==> r is None,
    {
        if self.blob2 < 0 {
            Some((-self.blob2) as i32)
        } else {
            None
        }
    }

    /// Secondary type guard: subtype bits under `mask` may vary, the rest of
    /// the tag must equal `ty` exactly.
    pub fn check_type(&self, ty: usize, mask: usize) -> (r: Result<(), Error>)
        ensures
            r is Ok <==> (self.ty & !mask) == ty,
            r is Err ==> r == Err::<(), Error>(Error::InvalidHandle),
    {
        if (self.ty & !mask) == ty {
            Ok(())
        } else {
            Err(Error::InvalidHandle)
        }
    }

    /// Releases the record: reports which host descriptors the caller must
    /// close (the secondary only when `use_fd2` is set), then zeroes the
    /// record, freeing the slot.
    pub fn close(&mut self, use_fd2: bool) -> (r: (Option<i32>, Option<i32>))
        requires
            old(self).fds_in_range(),
        ensures
            *final(self) == Handle::spec_zeroed(),
            r.0 == (if use_fd2 && old(self).blob2 < 0 {
                Some((-old(self).blob2) as i32)
            } else {
                None::<i32>
            }),
            r.1 == (if old(self).fd >= 0 {
                Some(old(self).fd as i32)
            } else {
                None::<i32>
            }),
    {
        let fd2 = if use_fd2 && self.blob2 < 0 {
            Some((-self.blob2) as i32)
        } else {
            None
        };
        let fd = if self.fd >= 0 {
            Some(self.fd as i32)
        } else {
            None
        };
        self.ty = 0;
        self.blob1 = 0;
        self.blob2 = 0;
        self.fd = 0;
        (fd2, fd)
    }
}

/// A per-thread handle table: 512 records at a fixed, 32-byte aligned base
/// address, plus the rotating scan hint.
pub struct HandleTable {
    /// Base address of the slot array; handle values are addresses in it.
    pub base: usize,
    /// The 512 records, by slot index.
    pub slots: Vec<Handle>,
    /// Rotating hint: the slot index the next insertion scan starts from.
    pub start_hint: usize,
}

/// The first free slot at or after `hint` in rotating order, scanning all
/// 512 slots: the index probed at step `k` is `(hint + k) % 512`.
pub open spec fn scan_free(s: Seq<Handle>, hint: int, k: int) -> Option<int>
    decreases 512 - k,
{
    if k < 0 || k >= 512 {
        None
    } else {
        let i = (hint + k) % 512;
        if s[i].ty == 0 {
            Some(i)
        } else {
            scan_free(s, hint, k + 1)
        }
    }
}

impl HandleTable {
    /// Internal consistency: slot count, hint range, and an address range
    /// that arithmetic on handle values cannot overflow.
    pub open spec fn wf(self) -> bool {
        &&& self.slots.len() == 512
        &&& self.start_hint < 512
        &&& self.base % 32 == 0
        &&& self.base + 512 * 32 <= usize::MAX
        &&& forall|i: int| 0 <= i < 512 ==> (#[trigger] self.slots[i]).fds_in_range()
    }

    /// The slot index a handle value addresses.
    pub open spec fn idx_of(self, p: usize) -> int {
        (p - self.base) / 32
    }

    /// A handle value is valid when it addresses an aligned slot inside the
    /// table whose record is live (non-zero tag).
    pub open spec fn valid_ptr(self, p: usize) -> bool {
        &&& self.base <= p < self.base + 512 * 32
        &&& (p - self.base) % 32 == 0
        &&& self.slots[self.idx_of(p)].ty != 0
    }

    /// The record a valid handle value addresses.
    pub open spec fn record_at(self, p: usize) -> Handle {
        self.slots[self.idx_of(p)]
    }

    /// Builds an empty table at `base`, which must be 32-byte aligned and
    /// leave room for 512 slots below the address-space limit.
    pub fn new(base: usize) -> (r: HandleTable)
        requires
            base % 32 == 0,
            base + 512 * 32 <= usize::MAX,
        ensures
            r.wf(),
            r.base == base,
            r.start_hint == 0,
            forall|i: int| 0 <= i < 512 ==> #[trigger] r.slots@[i] == Handle::spec_zeroed(),
    {
        let mut slots: Vec<Handle> = Vec::new();
        let mut n: usize = 0;
        while n < 512
            invariant
                n <= 512,
                slots.len() == n,
                forall|i: int| 0 <= i < n ==> #[trigger] slots@[i] == Handle::spec_zeroed(),
            decreases 512 - n,
        {
            slots.push(Handle::zeroed());
            n += 1;
        }
        HandleTable { base, slots, start_hint: 0 }
    }

    /// Relation between a table before and after a successful insertion of
    /// `h`, yielding handle value `p`: the first free slot from the hint was
    /// claimed, the hint now points at it, nothing else changed.
    pub open spec fn insert_ok_transition(pre: HandleTable, post: HandleTable, h: Handle, p: usize) -> bool {
        let idx = scan_free(pre.slots@, pre.start_hint as int, 0)->Some_0;
        &&& scan_free(pre.slots@, pre.start_hint as int, 0) is Some
        &&& p == pre.base + 32 * idx
        &&& post.base == pre.base
        &&& post.slots@ == pre.slots@.update(idx, h)
        &&& post.start_hint == idx
    }

    /// Claims the first free slot from the rotating hint for `record`, or
    /// reports exhaustion, leaving the table untouched. The returned handle
    /// value is the slot's address.
    pub fn insert_handle(&mut self, record: Handle) -> (r: Result<usize, Error>)
        requires
            old(self).wf(),
            record.ty != 0,
            record.fds_in_range(),
        ensures
            final(self).wf(),
            match r {
                Ok(p) => HandleTable::insert_ok_transition(*old(self), *final(self), record, p),
                Err(e) => {
                    &&& e == Error::ResourceLimitExhausted
                    &&& scan_free(old(self).slots@, old(self).start_hint as int, 0) is None
                    &&& *final(self) == *old(self)
                },
            },
    {
        let start = self.start_hint;
        let mut n: usize = 0;
        while n < 512
            invariant
                self.wf(),
                *self == *old(self),
                record.ty != 0,
                record.fds_in_range(),
                start == self.start_hint,
                n <= 512,
                scan_free(self.slots@, start as int, n as int)
                    == scan_free(self.slots@, start as int, 0),
                forall|k: int| 0 <= k < n ==> self.slots@[#[trigger] ((start + k) % 512)].ty != 0,
            decreases 512 - n,
        {
            let i = (n + start) % 512;
            if self.slots[i].ty == 0 {
                proof {
                    assert(scan_free(self.slots@, start as int, n as int) == Some(i as int));
                }
                self.slots.set(i, record);
                self.start_hint = i;
                return Ok(self.base + 32 * i);
            }
            n += 1;
        }
        Err(Error::ResourceLimitExhausted)
    }

    /// The only sanctioned way to turn an externally supplied handle value
    /// into a reference: bounds, alignment and liveness are all checked, and
    /// any failure is `InvalidHandle`.
    pub fn try_deref(&self, ptr: usize) -> (r: Result<&Handle, Error>)
        requires
            self.wf(),
        ensures
            self.valid_ptr(ptr) ==> (r is Ok && *r->Ok_0 == self.record_at(ptr)),
            !self.valid_ptr(ptr) ==> r == Err::<&Handle, Error>(Error::InvalidHandle),
    {
        if ptr >= self.base && ptr < self.base + 512 * 32 && (ptr - self.base) % 32 == 0 {
            let idx = (ptr - self.base) / 32;
            if self.slots[idx].ty != 0 {
                return Ok(&self.slots[idx]);
            }
        }
        Err(Error::InvalidHandle)
    }

    /// Relation between a table before and after closing the record at `p`:
    /// the slot is zeroed (freeing it and invalidating every outstanding
    /// handle value to it), nothing else changes.
    pub open spec fn close_ok_transition(pre: HandleTable, post: HandleTable, p: usize) -> bool {
        &&& post.base == pre.base
        &&& post.start_hint == pre.start_hint
        &&& post.slots@ == pre.slots@.update(pre.idx_of(p), Handle::spec_zeroed())
    }

    /// Validates `ptr`, releases the record's owned descriptors (returned to
    /// the caller to close) and zeroes the slot.
    pub fn close_handle(&mut self, ptr: usize, use_fd2: bool) -> (r: Result<
        (Option<i32>, Option<i32>),
        Error,
    >)
        requires
            old(self).wf(),
        ensures
            final(self).wf(),
            old(self).valid_ptr(ptr) ==> {
                let rec = old(self).record_at(ptr);
                &&& r is Ok
                &&& HandleTable::close_ok_transition(*old(self), *final(self), ptr)
                &&& r->Ok_0.0 == (if use_fd2 && rec.blob2 < 0 {
                    Some((-rec.blob2) as i32)
                } else {
                    None::<i32>
                })
                &&& r->Ok_0.1 == (if rec.fd >= 0 {
                    Some(rec.fd as i32)
                } else {
                    None::<i32>
                })
            },
            !old(self).valid_ptr(ptr) ==> {
                &&& r == Err::<(Option<i32>, Option<i32>), Error>(Error::InvalidHandle)
                &&& *final(self) == *old(self)
            },
    {
        if ptr >= self.base && ptr < self.base + 512 * 32 && (ptr - self.base) % 32 == 0 {
            let idx = (ptr - self.base) / 32;
            if self.slots[idx].ty != 0 {
                let rec = self.slots[idx];
                let fd2 = if use_fd2 && rec.blob2 < 0 {
                    Some((-rec.blob2) as i32)
                } else {
                    None
                };
                let fd = if rec.fd >= 0 {
                    Some(rec.fd as i32)
                } else {
                    None
                };
                self.slots.set(idx, Handle::zeroed());
                return Ok((fd2, fd));
            }
        }
        Err(Error::InvalidHandle)
    }
}

/// Law: a successful `insert_handle` yields a handle value that validates,
/// and validation finds a record identical to the one inserted.
pub proof fn lemma_insert_then_validate(pre: HandleTable, post: HandleTable, h: Handle, p: usize)
    requires
        pre.wf(),
        h.ty != 0,
        HandleTable::insert_ok_transition(pre, post, h, p),
    ensures
        post.valid_ptr(p),
        post.record_at(p) == h,
{
    let idx = scan_free(pre.slots@, pre.start_hint as int, 0)->Some_0;
    lemma_scan_free_in_range(pre.slots@, pre.start_hint as int, 0);
    assert(p == pre.base + 32 * idx);
    assert((p - post.base) % 32 == 0);
    assert(post.idx_of(p) == idx);
}

/// Law: after closing the record at `p`, the same handle value no longer
/// validates.
pub proof fn lemma_close_then_validate(pre: HandleTable, post: HandleTable, p: usize)
    requires
        pre.wf(),
        pre.valid_ptr(p),
        HandleTable::close_ok_transition(pre, post, p),
    ensures
        !post.valid_ptr(p),
{
}

/// Law: inserting into a table whose 512 slots are all occupied reports
/// `ResourceLimitExhausted`; by `insert_handle`'s contract the table is then
/// left unchanged.
pub proof fn lemma_full_table_scan_fails(s: Seq<Handle>, hint: int)
    requires
        s.len() == 512,
        0 <= hint < 512,
        forall|i: int| 0 <= i < 512 ==> (#[trigger] s[i]).ty != 0,
    ensures
        scan_free(s, hint, 0) is None,
{
    lemma_full_scan_rec(s, hint, 0);
}

proof fn lemma_full_scan_rec(s: Seq<Handle>, hint: int, k: int)
    requires
        s.len() == 512,
        0 <= hint < 512,
        0 <= k,
        forall|i: int| 0 <= i < 512 ==> (#[trigger] s[i]).ty != 0,
    ensures
        scan_free(s, hint, k) is None,
    decreases 512 - k,
{
    if k < 512 {
        lemma_full_scan_rec(s, hint, k + 1);
    }
}

/// The index a scan yields always lies inside the table.
pub proof fn lemma_scan_free_in_range(s: Seq<Handle>, hint: int, k: int)
    requires
        0 <= hint < 512,
        scan_free(s, hint, k) is Some,
    ensures
        0 <= scan_free(s, hint, k)->Some_0 < 512,
        s[scan_free(s, hint, k)->Some_0].ty == 0,
    decreases 512 - k,
{
    if 0 <= k < 512 {
        let i = (hint + k) % 512;
        if s[i].ty == 0 {
        } else {
            lemma_scan_free_in_range(s, hint, k + 1);
        }
    }
}

} // verus!

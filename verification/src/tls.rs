//! The TLS master-copy protocol: an append-only master record of static and
//! dynamic TLS sizes plus a monotonic version, and the per-thread lazy
//! catch-up that extends each thread's private copy to match. The page
//! protection and byte copies that catch-up requires are returned as a plan
//! of plain ranges for the caller to apply.

use vstd::prelude::*;

use crate::error::Error;

verus! {

/// Bytes reserved for one thread's TLS block; allocation in each direction
/// is bounded by half of it.
pub const TLS_BLOCK_SIZE: usize = 4096 * 4096 * 4;

/// Half the TLS block: the bound on each of `load_size` and `dyn_size`.
pub const TLS_HALF: usize = 4096 * 4096 * 2;

/// Rounds `v` up to the next multiple of `a`.
pub open spec fn spec_align_up(v: int, a: int) -> int
    recommends
        a >= 1,
{
    ((v + a - 1) / a) * a
}

/// TLS bookkeeping: the master copy holds the authoritative values; each
/// live thread holds a private copy that never exceeds the master's.
#[derive(Clone, Copy, Debug, PartialEq, Eq, Structural)]
pub struct Tcb {
    /// Static TLS bytes consumed (grows forward from the thread pointer).
    pub load_size: usize,
    /// Dynamic TLS bytes consumed, as a magnitude (grows backward from the
    /// thread pointer).
    pub dyn_size: usize,
    /// Monotonic version, bumped on every master growth.
    pub version: usize,
}

impl Tcb {
    /// Both sizes stay within their half of the reserved block.
    pub open spec fn wf(self) -> bool {
        &&& self.load_size <= TLS_HALF
        &&& self.dyn_size <= TLS_HALF
    }

    /// A thread's private copy never exceeds the master on any dimension.
    pub open spec fn le(self, m: Tcb) -> bool {
        &&& self.load_size <= m.load_size
        &&& self.dyn_size <= m.dyn_size
        &&& self.version <= m.version
    }
}

/// The master record a fresh TLS block starts from: the control block
/// itself occupies the first 32 static bytes.
pub fn new_master_tcb() -> (r: Tcb)
    ensures
        r == (Tcb { load_size: 32, dyn_size: 0, version: 0 }),
        r.wf(),
{
    Tcb { load_size: 32, dyn_size: 0, version: 0 }
}

/// The record a newly created thread starts from; identical to a fresh
/// master, so it is behind the real master until its first catch-up.
pub fn new_thread_tcb() -> (r: Tcb)
    ensures
        r == (Tcb { load_size: 32, dyn_size: 0, version: 0 }),
        r.wf(),
{
    Tcb { load_size: 32, dyn_size: 0, version: 0 }
}

/// Rounds `v` up to a multiple of `a`.
pub fn align_up(v: usize, a: usize) -> (r: usize)
    requires
        1 <= a,
        v + a <= usize::MAX,
    ensures
        r == spec_align_up(v as int, a as int),
        v <= r < v + a,
        (r as int) % (a as int) == 0,
{
    let rem = v % a;
    if rem == 0 {
        assert(v == spec_align_up(v as int, a as int)) by (nonlinear_arith)
            requires a >= 1 && v % a == 0,
        ;
        v
    } else {
        let r = v + (a - rem);
        proof {
            let vi = v as int;
            let ai = a as int;
            let q = vi / ai;
            vstd::arithmetic::div_mod::lemma_fundamental_div_mod(vi, ai);
            assert(r as int == (q + 1) * ai) by (nonlinear_arith)
                requires
                    vi == ai * q + rem,
                    r == vi + (ai - rem),
            ;
            vstd::arithmetic::div_mod::lemma_fundamental_div_mod_converse_div(
                vi + ai - 1,
                ai,
                q + 1,
                rem as int - 1,
            );
            assert(spec_align_up(vi, ai) == (q + 1) * ai);
            vstd::arithmetic::div_mod::lemma_mod_multiples_basic(q + 1, ai);
        }
        r
    }
}

/// Appends a static TLS allocation to the master: the offset is the current
/// `load_size` rounded up to `align`, the new `load_size` lies `size` past
/// it, and the version is bumped — unless that would exceed half the block,
/// which is rejected with the master untouched.
pub fn alloc_static_tls(master: &mut Tcb, size: usize, align: usize) -> (r: Result<usize, Error>)
    requires
        old(master).wf(),
        1 <= align <= 4096,
        old(master).version < usize::MAX,
    ensures
        final(master).wf(),
        match r {
            Ok(off) => {
                &&& off == spec_align_up(old(master).load_size as int, align as int)
                &&& off + size <= TLS_HALF
                &&& final(master).load_size == off + size
                &&& final(master).dyn_size == old(master).dyn_size
                &&& final(master).version == old(master).version + 1
            },
            Err(e) => {
                &&& e == Error::AllocError
                &&& spec_align_up(old(master).load_size as int, align as int) + size > TLS_HALF
                &&& *final(master) == *old(master)
            },
        },
{
    let off = align_up(master.load_size, align);
    if size > TLS_HALF || off > TLS_HALF - size {
        return Err(Error::AllocError);
    }
    master.load_size = off + size;
    master.version = master.version + 1;
    Ok(off)
}

/// Appends a dynamic (image) TLS allocation to the master: the magnitude is
/// `size` rounded up to `align`, growing backward from zero. Growth only —
/// the master's recorded magnitude never shrinks — and the same half-block
/// bound applies.
pub fn alloc_dyn_tls(master: &mut Tcb, size: usize, align: usize) -> (r: Result<usize, Error>)
    requires
        old(master).wf(),
        1 <= align <= 4096,
        old(master).version < usize::MAX,
        old(master).dyn_size <= spec_align_up(size as int, align as int),
    ensures
        final(master).wf(),
        match r {
            Ok(m) => {
                &&& m == spec_align_up(size as int, align as int)
                &&& m <= TLS_HALF
                &&& final(master).dyn_size == m
                &&& final(master).load_size == old(master).load_size
                &&& final(master).version == old(master).version + 1
            },
            Err(e) => {
                &&& e == Error::AllocError
                &&& spec_align_up(size as int, align as int) > TLS_HALF
                &&& *final(master) == *old(master)
            },
        },
{
    if size > TLS_HALF {
        assert(spec_align_up(size as int, align as int) >= size) by (nonlinear_arith)
            requires align >= 1,
        ;
        return Err(Error::AllocError);
    }
    let m = align_up(size, align);
    if m > TLS_HALF {
        return Err(Error::AllocError);
    }
    master.dyn_size = m;
    master.version = master.version + 1;
    Ok(m)
}

/// One page-protection extension plus one byte copy that catch-up must
/// apply, expressed as plain offsets from the thread pointer. For the
/// static side offsets grow forward; for the dynamic side `copy_from` names
/// the magnitude below the thread pointer where the copy begins.
#[derive(Clone, Copy, Debug, PartialEq, Eq, Structural)]
pub struct CopyRange {
    /// Offset (static) or magnitude (dynamic) where the copied range starts.
    pub copy_from: usize,
    /// Number of bytes to copy from the master at the same offsets.
    pub len: usize,
    /// Offset (static) or magnitude (dynamic) of the first page to make
    /// read-write.
    pub protect_from: usize,
    /// Length of the page range to make read-write.
    pub protect_len: usize,
}

/// What a catch-up call asks its caller to apply, per dimension; `None`
/// means that dimension was already current.
#[derive(Clone, Copy, Debug, PartialEq, Eq, Structural)]
pub struct CatchUpPlan {
    /// Extension of the forward (static) region, if it was behind.
    pub static_copy: Option<CopyRange>,
    /// Extension of the backward (dynamic) region, if it was behind.
    pub dyn_copy: Option<CopyRange>,
}

/// The plan a thread at `t` needs to catch up to master `m`: exactly the
/// new suffix of the static region and the new prefix of the backward
/// region, with protection extended over exactly the new page ranges.
pub open spec fn spec_catch_up_plan(t: Tcb, m: Tcb) -> CatchUpPlan {
    CatchUpPlan {
        static_copy: if t.load_size < m.load_size {
            Some(
                CopyRange {
                    copy_from: t.load_size,
                    len: (m.load_size - t.load_size) as usize,
                    protect_from: (t.load_size - t.load_size % 4096) as usize,
                    protect_len: (m.load_size - (t.load_size - t.load_size % 4096)) as usize,
                },
            )
        } else {
            None
        },
        dyn_copy: if t.dyn_size < m.dyn_size {
            Some(
                CopyRange {
                    copy_from: m.dyn_size,
                    len: (m.dyn_size - t.dyn_size) as usize,
                    protect_from: spec_align_up(m.dyn_size as int, 4096) as usize,
                    protect_len: (spec_align_up(m.dyn_size as int, 4096) - t.dyn_size) as usize,
                },
            )
        } else {
            None
        },
    }
}

/// Whether a thread's copy is behind the master and must catch up before
/// its pointer is used.
pub fn needs_catch_up(t: &Tcb, m: &Tcb) -> (r: bool)
    ensures
        r <==> t.version < m.version,
{
    t.version < m.version
}

/// Brings a thread's private copy up to the master: for each dimension that
/// is behind, the returned plan covers exactly the new range (protection
/// extension and delta copy), and the thread's record then equals the
/// master's. Master growth is append-only, so this is always a suffix or
/// prefix extension, never a rewrite.
pub fn update_tls(tcb: &mut Tcb, master: &Tcb) -> (plan: CatchUpPlan)
    requires
        old(tcb).wf(),
        master.wf(),
        old(tcb).le(*master),
    ensures
        *final(tcb) == *master,
        plan == spec_catch_up_plan(*old(tcb), *master),
{
    let static_copy = if tcb.load_size < master.load_size {
        let pg = tcb.load_size - tcb.load_size % 4096;
        let c = CopyRange {
            copy_from: tcb.load_size,
            len: master.load_size - tcb.load_size,
            protect_from: pg,
            protect_len: master.load_size - pg,
        };
        tcb.load_size = master.load_size;
        Some(c)
    } else {
        None
    };
    let dyn_copy = if tcb.dyn_size < master.dyn_size {
        let rounded = align_up(master.dyn_size, 4096);
        let c = CopyRange {
            copy_from: master.dyn_size,
            len: master.dyn_size - tcb.dyn_size,
            protect_from: rounded,
            protect_len: rounded - tcb.dyn_size,
        };
        tcb.dyn_size = master.dyn_size;
        Some(c)
    } else {
        None
    };
    tcb.version = master.version;
    proof {
        if old(tcb).load_size >= master.load_size {
            assert(old(tcb).load_size == master.load_size);
        }
        if old(tcb).dyn_size >= master.dyn_size {
            assert(old(tcb).dyn_size == master.dyn_size);
        }
    }
    CatchUpPlan { static_copy, dyn_copy }
}

/// Law: catch-up is idempotent absent intervening master growth — a thread
/// already level with the master gets an empty plan, so a redundant call
/// copies nothing and changes nothing.
pub proof fn lemma_update_tls_idempotent(m: Tcb)
    ensures
        spec_catch_up_plan(m, m) == (CatchUpPlan {
            static_copy: None::<CopyRange>,
            dyn_copy: None::<CopyRange>,
        }),
{
}

/// Law: threads racing catch-up converge — whatever distinct states two
/// threads start from, after each catches up against the same master their
/// records are identical (`update_tls` leaves each equal to the master).
pub proof fn lemma_catch_up_convergence(ta: Tcb, tb: Tcb, m: Tcb, ta2: Tcb, tb2: Tcb)
    requires
        ta2 == m,
        tb2 == m,
    ensures
        ta2 == tb2,
        ta2.load_size == m.load_size && ta2.dyn_size == m.dyn_size && ta2.version == m.version,
{
}

/// A TLS descriptor: a module's direct offset plus an offset within its
/// block, both relative to the thread pointer.
#[derive(Clone, Copy, Debug, PartialEq, Eq, Structural)]
pub struct TlsDesc {
    /// The module's direct offset from the thread pointer.
    pub module: usize,
    /// The symbol's offset within the module's block.
    pub offset: usize,
}

/// The address a TLS descriptor resolves to for a thread whose pointer is
/// `tp`: the thread pointer plus the module's offset plus the symbol's.
pub fn tls_resolve(desc: &TlsDesc, tp: usize) -> (r: usize)
    requires
        tp + desc.module + desc.offset <= usize::MAX,
    ensures
        r == tp + desc.module + desc.offset,
{
    tp + desc.module + desc.offset
}

} // verus!

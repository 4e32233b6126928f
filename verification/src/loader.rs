//! The dynamic-loader backend's computation: per-region base-address
//! cursors and the segment-mapping plan. The plan is a list of plain
//! mapping steps (protect, map, read, zero) that the caller executes
//! against the host; segments sharing a boundary page are coalesced, and
//! pages are made writable, filled, then tightened to their final
//! protection only afterward.

use vstd::prelude::*;

verus! {

/// Selects one of the two independent address-space regions.
#[derive(Clone, Copy, Debug, Hash, PartialEq, Eq, Structural)]
pub enum SearchType {
    /// The host's own modules.
    Host,
    /// The foreign (emulated) modules.
    Winter,
}

/// The loader backend's per-region base-address cursors.
pub struct FdLoader {
    /// Next base address for host-region modules.
    pub native_base: u64,
    /// Next base address for foreign-region modules.
    pub winter_base: u64,
}

impl FdLoader {
    /// The selected region's cursor.
    pub open spec fn spec_cursor(self, search: SearchType) -> u64 {
        match search {
            SearchType::Host => self.native_base,
            SearchType::Winter => self.winter_base,
        }
    }

    /// Hands out the next page-aligned base address from the selected
    /// region's monotonically increasing cursor, advancing it by the
    /// page-rounded extent; the regions never interleave.
    pub fn alloc_base_addr(&mut self, search: SearchType, max_pma: u64) -> (addr: u64)
        requires
            old(self).spec_cursor(search) % 4096 == 0,
            old(self).spec_cursor(search) + max_pma + 4095 <= u64::MAX,
        ensures
            addr == old(self).spec_cursor(search),
            addr % 4096 == 0,
            final(self).spec_cursor(search) == addr + ((max_pma + 4095) / 4096) * 4096,
            final(self).spec_cursor(search) % 4096 == 0,
            match search {
                SearchType::Host => final(self).winter_base == old(self).winter_base,
                SearchType::Winter => final(self).native_base == old(self).native_base,
            },
    {
        let length = ((max_pma + 4095) / 4096) * 4096;
        proof {
            assert(((max_pma + 4095) / 4096) * 4096 % 4096 == 0) by (nonlinear_arith);
            assert(((max_pma + 4095) / 4096) * 4096 <= max_pma + 4095) by (nonlinear_arith);
        }
        match search {
            SearchType::Host => {
                let addr = self.native_base;
                self.native_base = addr + length;
                addr
            },
            SearchType::Winter => {
                let addr = self.winter_base;
                self.winter_base = addr + length;
                addr
            },
        }
    }
}

/// Segment flag: executable.
pub const PF_X: u32 = 1;

/// Segment flag: writable.
pub const PF_W: u32 = 2;

/// Page protection: readable.
pub const PROT_READ: u32 = 1;

/// Page protection: writable.
pub const PROT_WRITE: u32 = 2;

/// Page protection: executable.
pub const PROT_EXEC: u32 = 4;

/// One loadable segment, as its program header declares it.
#[derive(Clone, Copy, Debug, PartialEq, Eq, Structural)]
pub struct Phdr {
    /// The segment's address relative to the module base.
    pub p_paddr: u64,
    /// Bytes the segment occupies in memory.
    pub p_memsz: u64,
    /// Bytes backed by file content (the rest is zero-filled).
    pub p_filesz: u64,
    /// File offset of the segment's content.
    pub p_offset: u64,
    /// The segment's permission flags.
    pub p_flags: u32,
}

/// One step of a segment-mapping plan, executed in order.
#[derive(Clone, Copy, Debug, PartialEq, Eq, Structural)]
pub enum MapStep {
    /// Change the protection of `[addr, addr+len)`.
    Protect {
        /// Start of the page range.
        addr: u64,
        /// Length of the range.
        len: u64,
        /// The protection to apply.
        prot: u32,
    },
    /// Map the file copy-on-write at `[addr, addr+len)` from `offset`.
    MapFile {
        /// Page-aligned start of the mapping.
        addr: u64,
        /// Length of the mapping.
        len: u64,
        /// Page-aligned file offset.
        offset: u64,
        /// The initial (writable) protection.
        prot: u32,
    },
    /// Read file bytes `[offset, offset+len)` into memory at `addr`.
    ReadAt {
        /// Destination address.
        addr: u64,
        /// Number of bytes.
        len: u64,
        /// Source file offset.
        offset: u64,
    },
    /// Zero the bytes of `[addr, addr+len)`.
    ZeroFill {
        /// Start of the range.
        addr: u64,
        /// Number of bytes.
        len: u64,
    },
}

/// The protection a segment's declared flags grant: always readable, and
/// writable or executable (writable wins) as flagged.
pub open spec fn spec_segment_perms(flags: u32) -> u32 {
    if flags & PF_W != 0 {
        PROT_READ | PROT_WRITE
    } else if flags & PF_X != 0 {
        PROT_READ | PROT_EXEC
    } else {
        PROT_READ
    }
}

/// Computes a segment's protection from its flags.
pub fn segment_perms(flags: u32) -> (r: u32)
    ensures
        r == spec_segment_perms(flags),
{
    if flags & PF_W != 0 {
        PROT_READ | PROT_WRITE
    } else if flags & PF_X != 0 {
        PROT_READ | PROT_EXEC
    } else {
        PROT_READ
    }
}

/// The page containing address `a`.
pub open spec fn spec_page_of(a: int) -> int {
    a - a % 4096
}

/// Rounds an address up to the next page boundary.
pub open spec fn spec_page_up(a: int) -> int {
    if a % 4096 == 0 {
        a
    } else {
        a + (4096 - a % 4096)
    }
}

/// A segment the planner accepts: file bytes within memory bytes, file
/// content congruent to its address modulo the page size, and small
/// enough that no address computation can wrap.
pub open spec fn spec_phdr_ok(ph: Phdr, base: int) -> bool {
    &&& ph.p_filesz <= ph.p_memsz
    &&& ph.p_paddr % 4096 == ph.p_offset % 4096
    &&& base + ph.p_paddr + ph.p_memsz + 8192 <= u64::MAX
    &&& ph.p_offset + ph.p_filesz + 8192 <= u64::MAX
}

/// The steps one segment contributes, and the new last-mapped state.
/// When the segment starts in or before the page the previous one ended
/// in, that boundary page is made writable, the head of this segment's
/// content — up to the page boundary — is read into it directly, the
/// rest of the boundary span is zeroed, and the page's protection is
/// restored to the union of both segments' permissions; the remaining
/// lengths shrink by exactly the span the head handled, and the rest of
/// the segment continues from the page boundary. File-backed content is
/// mapped writable from the containing page, its partial head and tail
/// pages are zero-filled, and only then is the range tightened to the
/// segment's declared protection.
pub open spec fn spec_map_segment(ph: Phdr, base: int, last_addr: int, last_perms: u32) -> (
    Seq<MapStep>,
    int,
    u32,
) {
    let addr0 = base + ph.p_paddr;
    let perms = spec_segment_perms(ph.p_flags);
    let last_pg = spec_page_of(last_addr);
    let coalesce = spec_page_of(addr0) <= last_pg;
    let boundary = spec_page_up(addr0 + 1) - addr0;
    let head_len = if coalesce {
        if boundary <= ph.p_filesz {
            boundary
        } else {
            ph.p_filesz as int
        }
    } else {
        0
    };
    let head_span = if coalesce {
        if boundary <= ph.p_memsz {
            boundary
        } else {
            ph.p_memsz as int
        }
    } else {
        0
    };
    let head_steps: Seq<MapStep> = if coalesce {
        seq![
            MapStep::Protect {
                addr: last_pg as u64,
                len: 4096,
                prot: PROT_READ | PROT_WRITE,
            },
            MapStep::ReadAt { addr: addr0 as u64, len: head_len as u64, offset: ph.p_offset },
            MapStep::ZeroFill {
                addr: (addr0 + head_len) as u64,
                len: (head_span - head_len) as u64,
            },
            MapStep::Protect { addr: last_pg as u64, len: 4096, prot: perms | last_perms },
        ]
    } else {
        seq![]
    };
    let len = ph.p_memsz - head_span;
    let file_len = ph.p_filesz - head_len;
    let addr = if coalesce {
        addr0 + boundary
    } else {
        addr0
    };
    let offset = if coalesce {
        ph.p_offset + boundary
    } else {
        ph.p_offset as int
    };
    if file_len > 0 {
        let f_offset = spec_page_of(offset);
        let extra = offset - f_offset;
        let pg_addr = spec_page_of(addr);
        let file_end = addr + file_len;
        let end = addr + len;
        let body: Seq<MapStep> = seq![
            MapStep::MapFile {
                addr: pg_addr as u64,
                len: (extra + file_len) as u64,
                offset: f_offset as u64,
                prot: PROT_READ | PROT_WRITE,
            },
            MapStep::ZeroFill { addr: pg_addr as u64, len: (addr - pg_addr) as u64 },
            MapStep::ZeroFill { addr: file_end as u64, len: (end - file_end) as u64 },
            MapStep::Protect { addr: pg_addr as u64, len: (extra + len) as u64, prot: perms },
        ];
        (head_steps + body, end - 1, perms)
    } else {
        (head_steps, last_addr, last_perms)
    }
}

/// The full plan for a module's segments, folded in order from an
/// initially unmapped state.
pub open spec fn spec_map_phdrs(phs: Seq<Phdr>, base: int, i: int, last_addr: int, last_perms: u32) -> Seq<
    MapStep,
>
    decreases phs.len() - i,
{
    if i < 0 || i >= phs.len() {
        seq![]
    } else {
        let (steps, la, lp) = spec_map_segment(phs[i], base, last_addr, last_perms);
        steps + spec_map_phdrs(phs, base, i + 1, la, lp)
    }
}

/// Page-rounds an address down.
fn page_of(a: u64) -> (r: u64)
    ensures
        r == spec_page_of(a as int),
        r % 4096 == 0,
{
    a - a % 4096
}

/// Page-rounds an address up.
fn page_up(a: u64) -> (r: u64)
    requires
        a + 4096 <= u64::MAX,
    ensures
        r == spec_page_up(a as int),
        r % 4096 == 0,
        a <= r < a + 4096,
{
    let rem = a % 4096;
    if rem == 0 {
        a
    } else {
        a + (4096 - rem)
    }
}

/// Builds the mapping plan for a module's program headers at `base`,
/// which must be page aligned. The plan realizes the layout the headers
/// declare: coalesced boundary pages, copy-on-write file content, zeroed
/// partial pages, and final protections applied only after content is in
/// place.
pub fn map_phdrs(phdrs: &Vec<Phdr>, base: u64) -> (plan: Vec<MapStep>)
    requires
        base % 4096 == 0,
        forall|i: int| 0 <= i < phdrs@.len() ==> spec_phdr_ok(#[trigger] phdrs@[i], base as int),
    ensures
        plan@ == spec_map_phdrs(phdrs@, base as int, 0, 0, 0),
{
    let mut plan: Vec<MapStep> = Vec::new();
    let mut last_addr: u64 = 0;
    let mut last_perms: u32 = 0;
    let mut i: usize = 0;
    proof {
        assert(Seq::<MapStep>::empty() + spec_map_phdrs(phdrs@, base as int, 0, 0, 0)
            =~= spec_map_phdrs(phdrs@, base as int, 0, 0, 0));
    }
    while i < phdrs.len()
        invariant
            i <= phdrs@.len(),
            base % 4096 == 0,
            forall|k: int| 0 <= k < phdrs@.len() ==> spec_phdr_ok(#[trigger] phdrs@[k], base as int),
            spec_map_phdrs(phdrs@, base as int, 0, 0, 0) == plan@ + spec_map_phdrs(
                phdrs@,
                base as int,
                i as int,
                last_addr as int,
                last_perms,
            ),
        decreases phdrs@.len() - i,
    {
        let ghost pre_plan = plan@;
        let ghost step_spec = spec_map_segment(
            phdrs@[i as int],
            base as int,
            last_addr as int,
            last_perms,
        );
        let ph = phdrs[i];
        let addr0 = base + ph.p_paddr;
        let perms = segment_perms(ph.p_flags);
        let last_pg = page_of(last_addr);
        let coalesce = page_of(addr0) <= last_pg;
        let mut len = ph.p_memsz;
        let mut file_len = ph.p_filesz;
        let mut addr = addr0;
        let mut offset = ph.p_offset;
        if coalesce {
            plan.push(MapStep::Protect { addr: last_pg, len: 4096, prot: PROT_READ | PROT_WRITE });
            let boundary = page_up(addr0 + 1) - addr0;
            let head_len = if boundary <= ph.p_filesz {
                boundary
            } else {
                ph.p_filesz
            };
            let head_span = if boundary <= ph.p_memsz {
                boundary
            } else {
                ph.p_memsz
            };
            plan.push(MapStep::ReadAt { addr: addr0, len: head_len, offset: ph.p_offset });
            plan.push(MapStep::ZeroFill { addr: addr0 + head_len, len: head_span - head_len });
            plan.push(MapStep::Protect { addr: last_pg, len: 4096, prot: perms | last_perms });
            len = len - head_span;
            file_len = file_len - head_len;
            addr = addr0 + boundary;
            offset = ph.p_offset + boundary;
        }
        if file_len > 0 {
            let f_offset = page_of(offset);
            let extra = offset - f_offset;
            let pg_addr = page_of(addr);
            let file_end = addr + file_len;
            let end = addr + len;
            plan.push(
                MapStep::MapFile {
                    addr: pg_addr,
                    len: extra + file_len,
                    offset: f_offset,
                    prot: PROT_READ | PROT_WRITE,
                },
            );
            plan.push(MapStep::ZeroFill { addr: pg_addr, len: addr - pg_addr });
            plan.push(MapStep::ZeroFill { addr: file_end, len: end - file_end });
            plan.push(MapStep::Protect { addr: pg_addr, len: extra + len, prot: perms });
            last_addr = end - 1;
            last_perms = perms;
        }
        proof {
            assert(plan@ =~= pre_plan + step_spec.0);
            assert(pre_plan + step_spec.0 + spec_map_phdrs(
                phdrs@,
                base as int,
                i as int + 1,
                step_spec.1,
                step_spec.2,
            ) =~= pre_plan + (step_spec.0 + spec_map_phdrs(
                phdrs@,
                base as int,
                i as int + 1,
                step_spec.1,
                step_spec.2,
            )));
        }
        i += 1;
    }
    proof {
        assert(plan@ + Seq::<MapStep>::empty() =~= plan@);
    }
    plan
}

/// The span from an address to the next page boundary is the page size
/// minus the address's offset in its page, and crossing it lands on a
/// page boundary.
proof fn lemma_boundary_span(a: int)
    requires
        a >= 0,
    ensures
        spec_page_up(a + 1) - a == 4096 - a % 4096,
        (a + (spec_page_up(a + 1) - a)) % 4096 == 0,
{
    let r = a % 4096;
    vstd::arithmetic::div_mod::lemma_fundamental_div_mod(a, 4096);
    let q = a / 4096;
    if r + 1 < 4096 {
        vstd::arithmetic::div_mod::lemma_fundamental_div_mod_converse_mod(a + 1, 4096, q, r + 1);
    } else {
        vstd::arithmetic::div_mod::lemma_fundamental_div_mod_converse_mod(a + 1, 4096, q + 1, 0);
    }
    vstd::arithmetic::div_mod::lemma_mod_multiples_basic(q + 1, 4096);
    assert(a + (4096 - r) == 4096 * (q + 1));
}

/// Adding a multiple of the page size leaves the page offset unchanged.
proof fn lemma_congruent_mod(base: int, p: int)
    requires
        base >= 0,
        p >= 0,
        base % 4096 == 0,
    ensures
        (base + p) % 4096 == p % 4096,
{
    vstd::arithmetic::div_mod::lemma_fundamental_div_mod(base, 4096);
    vstd::arithmetic::div_mod::lemma_fundamental_div_mod(p, 4096);
    let qb = base / 4096;
    let qp = p / 4096;
    let r = p % 4096;
    assert(base + p == 4096 * (qb + qp) + r);
    vstd::arithmetic::div_mod::lemma_fundamental_div_mod_converse_mod(base + p, 4096, qb + qp, r);
}

/// Law: a segment's declared file content is placed in full. The bytes
/// the file holds at `[p_offset, p_offset + p_filesz)` land contiguously
/// at `[base + p_paddr, base + p_paddr + p_filesz)`: on a coalesced
/// boundary page the head read places the bytes up to the page boundary
/// and the file mapping continues at exactly that boundary with exactly
/// the remaining bytes; the zero-filled tail is exactly
/// `[base + p_paddr + p_filesz, base + p_paddr + p_memsz)`.
pub proof fn lemma_segment_content_placed(ph: Phdr, base: int, last_addr: int, last_perms: u32)
    requires
        spec_phdr_ok(ph, base),
        base >= 0,
        last_addr >= 0,
        base % 4096 == 0,
    ensures
        ({
            let steps = spec_map_segment(ph, base, last_addr, last_perms).0;
            let addr0 = base + ph.p_paddr;
            let boundary = spec_page_up(addr0 + 1) - addr0;
            let coalesce = spec_page_of(addr0) <= spec_page_of(last_addr);
            &&& (!coalesce && ph.p_filesz > 0 ==> (steps[0] matches MapStep::MapFile {
                addr: pg,
                len: l,
                offset: fo,
                ..
            } && fo <= ph.p_offset && addr0 - pg == ph.p_offset - fo && fo + l == ph.p_offset
                + ph.p_filesz) && steps[2] == (MapStep::ZeroFill {
                addr: (addr0 + ph.p_filesz) as u64,
                len: (ph.p_memsz - ph.p_filesz) as u64,
            }))
            &&& (coalesce && ph.p_filesz <= boundary ==> steps[1] == (MapStep::ReadAt {
                addr: addr0 as u64,
                len: ph.p_filesz,
                offset: ph.p_offset,
            }))
            &&& (coalesce && ph.p_filesz > boundary ==> steps[1] == (MapStep::ReadAt {
                addr: addr0 as u64,
                len: boundary as u64,
                offset: ph.p_offset,
            }) && (steps[4] matches MapStep::MapFile { addr: pg, len: l, offset: fo, .. } && pg
                == addr0 + boundary && fo == ph.p_offset + boundary && l == ph.p_filesz - boundary)
                && steps[6] == (MapStep::ZeroFill {
                addr: (addr0 + ph.p_filesz) as u64,
                len: (ph.p_memsz - ph.p_filesz) as u64,
            }))
        }),
{
    let addr0 = base + ph.p_paddr;
    let boundary = spec_page_up(addr0 + 1) - addr0;
    let coalesce = spec_page_of(addr0) <= spec_page_of(last_addr);
    lemma_congruent_mod(base, ph.p_paddr as int);
    assert(addr0 % 4096 == ph.p_paddr % 4096);
    lemma_boundary_span(addr0);
    vstd::arithmetic::div_mod::lemma_fundamental_div_mod(addr0, 4096);
    vstd::arithmetic::div_mod::lemma_fundamental_div_mod(ph.p_offset as int, 4096);
    let r = addr0 % 4096;
    if !coalesce && ph.p_filesz > 0 {
        let fo = spec_page_of(ph.p_offset as int);
        let pg = spec_page_of(addr0);
        assert(ph.p_offset - fo == r);
        assert(addr0 - pg == r);
    }
    if coalesce && ph.p_filesz > boundary {
        // The continuation address and file offset both sit on a page
        // boundary, so the mapping starts exactly where the head ended.
        let off2 = ph.p_offset + boundary;
        let qo = ph.p_offset as int / 4096;
        assert(ph.p_offset % 4096 == r);
        assert(off2 == 4096 * (qo + 1));
        vstd::arithmetic::div_mod::lemma_fundamental_div_mod_converse_mod(off2, 4096, qo + 1, 0);
        assert(off2 % 4096 == 0);
        let addr2 = addr0 + boundary;
        assert(addr2 % 4096 == 0);
        assert(spec_page_of(off2) == off2);
        assert(spec_page_of(addr2) == addr2);
    }
}

/// Law: a plan never tightens a file-backed range to its final protection
/// before its content steps — within each segment's contribution the
/// map/read/zero steps precede the final protect, which carries exactly
/// the permissions the segment's flags declare.
pub proof fn lemma_segment_final_protect(ph: Phdr, base: int, last_addr: int, last_perms: u32)
    ensures
        ({
            let (steps, _, _) = spec_map_segment(ph, base, last_addr, last_perms);
            steps.len() > 0 ==> (steps.last() matches MapStep::Protect { prot, .. } && (prot
                == spec_segment_perms(ph.p_flags) || prot == (spec_segment_perms(ph.p_flags)
                | last_perms)))
        }),
{
}

/// The outcome of one read while loading exactly `remaining` bytes at an
/// offset: a zero-length read mid-transfer is a hard error; otherwise the
/// transfer advances.
pub fn read_progress(n_read: usize, remaining: usize) -> (r: Result<usize, crate::error::Error>)
    requires
        n_read <= remaining,
    ensures
        n_read == 0 && remaining > 0 ==> r == Err::<usize, crate::error::Error>(
            crate::error::Error::ReadError,
        ),
        n_read > 0 || remaining == 0 ==> r == Ok::<usize, crate::error::Error>(
            (remaining - n_read) as usize,
        ),
{
    if n_read == 0 && remaining > 0 {
        Err(crate::error::Error::ReadError)
    } else {
        Ok(remaining - n_read)
    }
}

/// What the exact-at-offset read loop does after one host read.
#[derive(Clone, Copy, Debug, PartialEq, Eq, Structural)]
pub enum ReadStep {
    /// Bytes arrived: this many remain to be read.
    Advance(usize),
    /// The call was interrupted: repeat it unchanged.
    Retry,
    /// The transfer failed: a zero-length read mid-transfer or any other
    /// host error is a hard read error.
    Fail(crate::error::Error),
}

/// Decides the exact-read loop's next move from one host read outcome:
/// only an interrupted-call indication is retried; any other failure, or
/// a read that returned nothing with bytes still owed, fails the
/// transfer; otherwise the transfer advances by what arrived.
pub fn read_at_step(outcome: Result<usize, i32>, remaining: usize) -> (r: ReadStep)
    requires
        outcome matches Ok(n) ==> n <= remaining,
    ensures
        (outcome matches Ok(n) && n == 0 && remaining > 0) ==> r == ReadStep::Fail(
            crate::error::Error::ReadError,
        ),
        (outcome matches Ok(n) && (n > 0 || remaining == 0)) ==> r == ReadStep::Advance(
            (remaining - outcome->Ok_0) as usize,
        ),
        (outcome matches Err(e) && e == 4) ==> r == ReadStep::Retry,
        (outcome matches Err(e) && e != 4) ==> r == ReadStep::Fail(crate::error::Error::ReadError),
{
    match outcome {
        Ok(n) => match read_progress(n, remaining) {
            Ok(rest) => ReadStep::Advance(rest),
            Err(e) => ReadStep::Fail(e),
        },
        Err(e) => {
            if e == 4 {
                ReadStep::Retry
            } else {
                ReadStep::Fail(crate::error::Error::ReadError)
            }
        },
    }
}

} // verus!

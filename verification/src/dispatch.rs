//! The process-wide syscall dispatch table and subsystem registry: 64 slots
//! of optional per-subsystem tables, each mapping 4096 local syscall numbers
//! to handler functions. Slots only ever go from empty to populated.

use vstd::prelude::*;

use crate::error::UNSUPPORTED_KERNEL_FUNCTION;
use crate::uid::Uuid;

verus! {

/// Number of subsystem slots in the global table.
pub const SUBSYS_SLOTS: usize = 64;

/// Number of local syscall numbers per subsystem table.
pub const SUBSYS_TABLE_SIZE: usize = 4096;

/// Passing this as the slot requests dynamic slot assignment.
pub const DYN_SUBSYS_SENTINEL: u64 = u64::MAX;

/// The first slot handed out to dynamically registered subsystems; slots
/// below it form the fixed built-in range.
pub const DYN_SUBSYS_FLOOR: u64 = 8;

/// A registered subsystem's descriptor.
pub struct SubsysInfo {
    /// The subsystem's name.
    pub name: String,
    /// The subsystem's stable UUID.
    pub uuid: Uuid,
    /// The subsystem's version.
    pub subsys_version: u64,
    /// The highest local syscall number the subsystem answers.
    pub max_sysno: u16,
}

/// One subsystem's table: 4096 optional handlers, indexed by local syscall
/// number. A handler takes the six raw argument registers and produces the
/// value for the return register.
pub struct SyscallTable<F> {
    /// The handlers, by local syscall number.
    pub entries: Vec<Option<F>>,
}

impl<F: Fn(u64, u64, u64, u64, u64, u64) -> i64> SyscallTable<F> {
    /// A table is well formed when it has exactly 4096 entries and every
    /// present handler may be invoked on any six argument registers.
    pub open spec fn wf(self) -> bool {
        &&& self.entries.len() == 4096
        &&& forall|l: int, args: (u64, u64, u64, u64, u64, u64)|
            0 <= l < 4096 && self.entries@[l] is Some ==> call_requires(
                self.entries@[l]->Some_0,
                args,
            )
    }

    /// Builds a table with no handlers.
    pub fn new() -> (r: SyscallTable<F>)
        ensures
            r.wf(),
            forall|l: int| 0 <= l < 4096 ==> r.entries@[l] is None,
    {
        let mut entries: Vec<Option<F>> = Vec::new();
        let mut n: usize = 0;
        while n < 4096
            invariant
                n <= 4096,
                entries.len() == n,
                forall|l: int| 0 <= l < n ==> entries@[l] is None,
            decreases 4096 - n,
        {
            entries.push(None);
            n += 1;
        }
        SyscallTable { entries }
    }

    /// Installs `f` as the handler for local syscall number `local`.
    pub fn set_entry(&mut self, local: usize, f: F)
        requires
            old(self).wf(),
            local < 4096,
            forall|args: (u64, u64, u64, u64, u64, u64)| call_requires(f, args),
        ensures
            final(self).wf(),
            final(self).entries@ == old(self).entries@.update(local as int, Some(f)),
    {
        self.entries.set(local, Some(f));
    }
}

/// The process-wide registry: one optional table and descriptor per slot,
/// plus the counter that assigns dynamic slots.
pub struct Registry<F> {
    /// The published syscall tables, by subsystem slot.
    pub slots: Vec<Option<SyscallTable<F>>>,
    /// The published descriptors, by subsystem slot.
    pub infos: Vec<Option<SubsysInfo>>,
    /// The next slot dynamic registration will claim.
    pub next_dyn: u64,
}

/// The handler the registry holds for global syscall number `n`, if any:
/// the number decodes as slot `n / 4096` and local number `n % 4096`.
pub open spec fn spec_lookup<F>(reg: Registry<F>, n: u64) -> Option<F> {
    let s = n / 4096;
    let l = n % 4096;
    if s < 64 {
        match reg.slots@[s as int] {
            Some(t) => t.entries@[l as int],
            None => None,
        }
    } else {
        None
    }
}

/// The lowest slot whose registered descriptor carries `uuid`, scanning
/// from `s`.
pub open spec fn spec_registry_find_from<F>(reg: Registry<F>, uuid: Uuid, s: int) -> Option<u16>
    decreases 64 - s,
{
    if s < 0 || s >= 64 {
        None
    } else if reg.infos@[s] is Some && reg.infos@[s]->Some_0.uuid == uuid {
        Some(s as u16)
    } else {
        spec_registry_find_from(reg, uuid, s + 1)
    }
}

/// The lowest occupied slot whose descriptor carries `uuid`, if any.
pub open spec fn spec_registry_find<F>(reg: Registry<F>, uuid: Uuid) -> Option<u16> {
    spec_registry_find_from(reg, uuid, 0)
}

impl<F: Fn(u64, u64, u64, u64, u64, u64) -> i64> Registry<F> {
    /// Registry consistency: 64 slots, tables and descriptors present
    /// together and well formed, and every slot at or above `next_dyn`
    /// still empty (dynamic assignment never skips or reuses a slot).
    pub open spec fn wf(self) -> bool {
        &&& self.slots.len() == 64
        &&& self.infos.len() == 64
        &&& 8 <= self.next_dyn <= 64
        &&& forall|s: int|
            0 <= s < 64 ==> ((#[trigger] self.slots@[s]) is Some <==> self.infos@[s] is Some)
        &&& forall|s: int|
            0 <= s < 64 && (#[trigger] self.slots@[s]) is Some ==> self.slots@[s]->Some_0.wf()
        &&& forall|s: int| self.next_dyn <= s < 64 ==> (#[trigger] self.slots@[s]) is None
    }

    /// Builds an empty registry.
    pub fn new() -> (r: Registry<F>)
        ensures
            r.wf(),
            r.next_dyn == 8,
            forall|s: int| 0 <= s < 64 ==> (#[trigger] r.slots@[s]) is None,
    {
        let mut slots: Vec<Option<SyscallTable<F>>> = Vec::new();
        let mut infos: Vec<Option<SubsysInfo>> = Vec::new();
        let mut n: usize = 0;
        while n < 64
            invariant
                n <= 64,
                slots.len() == n,
                infos.len() == n,
                forall|s: int| 0 <= s < n ==> (#[trigger] slots@[s]) is None,
                forall|s: int| 0 <= s < n ==> (#[trigger] infos@[s]) is None,
            decreases 64 - n,
        {
            slots.push(None);
            infos.push(None);
            n += 1;
        }
        Registry { slots, infos, next_dyn: 8 }
    }

    /// Publishes a subsystem's table and descriptor. A slot below the fixed
    /// range registers there; the sentinel requests the next dynamic slot.
    /// Each subsystem registers at most once, and an occupied slot is never
    /// overwritten: the Kth dynamic registration lands at `floor + K - 1`,
    /// and every other slot is left exactly as it was. Exhausting the
    /// 64-slot budget is unrecoverable misuse, excluded by contract: the
    /// caller must halt the process as soon as the budget is spent rather
    /// than register past it.
    pub fn register_subsys(&mut self, subsys: u64, table: SyscallTable<F>, info: SubsysInfo) -> (slot:
        u64)
        requires
            old(self).wf(),
            table.wf(),
            subsys == DYN_SUBSYS_SENTINEL || (subsys < 8 && old(self).slots@[subsys as int] is None),
            subsys == DYN_SUBSYS_SENTINEL ==> old(self).next_dyn < 64,
        ensures
            final(self).wf(),
            slot < 64,
            old(self).slots@[slot as int] is None,
            subsys != DYN_SUBSYS_SENTINEL ==> slot == subsys && final(self).next_dyn == old(
                self,
            ).next_dyn,
            subsys == DYN_SUBSYS_SENTINEL ==> slot == old(self).next_dyn && final(self).next_dyn
                == old(self).next_dyn + 1,
            final(self).slots@ == old(self).slots@.update(slot as int, Some(table)),
            final(self).infos@ == old(self).infos@.update(slot as int, Some(info)),
    {
        let slot: u64 = if subsys == DYN_SUBSYS_SENTINEL {
            let val = self.next_dyn;
            self.next_dyn = self.next_dyn + 1;
            val
        } else {
            subsys
        };
        self.slots.set(slot as usize, Some(table));
        self.infos.set(slot as usize, Some(info));
        slot
    }

    /// Decodes `n`, looks up the registered handler and invokes it with the
    /// six raw argument registers; an empty slot or empty entry yields the
    /// unsupported-kernel-function sentinel instead.
    pub fn dispatch(&self, n: u64, a0: u64, a1: u64, a2: u64, a3: u64, a4: u64, a5: u64) -> (r: i64)
        requires
            self.wf(),
        ensures
            spec_lookup(*self, n) is None ==> r == UNSUPPORTED_KERNEL_FUNCTION,
            spec_lookup(*self, n) matches Some(f) ==> call_ensures(f, (a0, a1, a2, a3, a4, a5), r),
    {
        proof {
            assert(n >> 12 == n / 4096) by (bit_vector);
            assert(n & 0xFFF == n % 4096) by (bit_vector);
            assert(n % 4096 < 4096) by (bit_vector);
        }
        let slot = n >> 12;
        let local = (n & 0xFFF) as usize;
        if slot < 64 {
            match &self.slots[slot as usize] {
                Some(t) => match &t.entries[local] {
                    Some(f) => f(a0, a1, a2, a3, a4, a5),
                    None => UNSUPPORTED_KERNEL_FUNCTION,
                },
                None => UNSUPPORTED_KERNEL_FUNCTION,
            }
        } else {
            UNSUPPORTED_KERNEL_FUNCTION
        }
    }

    /// The slots that currently hold a registered subsystem, in increasing
    /// order: a finite, restartable enumeration of the registry.
    pub fn all_subsystems(&self) -> (r: Vec<u16>)
        requires
            self.wf(),
        ensures
            forall|j: int| 0 <= j < r.len() ==> 0 <= #[trigger] r@[j] < 64,
            forall|j: int| 0 <= j < r.len() ==> self.infos@[#[trigger] r@[j] as int] is Some,
            forall|s: int|
                0 <= s < 64 && (#[trigger] self.infos@[s]) is Some ==> r@.contains(s as u16),
            forall|j1: int, j2: int| 0 <= j1 < j2 < r.len() ==> r@[j1] < r@[j2],
    {
        let mut r: Vec<u16> = Vec::new();
        let mut s: usize = 0;
        while s < 64
            invariant
                self.wf(),
                s <= 64,
                forall|j: int| 0 <= j < r.len() ==> 0 <= #[trigger] r@[j] < s,
                forall|j: int| 0 <= j < r.len() ==> self.infos@[#[trigger] r@[j] as int] is Some,
                forall|t: int|
                    0 <= t < s && (#[trigger] self.infos@[t]) is Some ==> r@.contains(t as u16),
                forall|j1: int, j2: int| 0 <= j1 < j2 < r.len() ==> r@[j1] < r@[j2],
            decreases 64 - s,
        {
            if self.infos[s].is_some() {
                let ghost old_r = r@;
                r.push(s as u16);
                proof {
                    assert forall|t: int|
                        0 <= t < s + 1 && (#[trigger] self.infos@[t]) is Some implies r@.contains(
                        t as u16,
                    ) by {
                        if t < s {
                            let j = choose|j: int|
                                0 <= j < old_r.len() && old_r[j] == t as u16;
                            assert(r@[j] == t as u16);
                        } else {
                            assert(r@[r@.len() - 1] == s as u16);
                        }
                    }
                }
            }
            s += 1;
        }
        r
    }

    /// The descriptor registered in `slot`, if any.
    pub fn subsys_info(&self, slot: u16) -> (r: Option<&SubsysInfo>)
        requires
            self.wf(),
            slot < 64,
        ensures
            match r {
                Some(info) => self.infos@[slot as int] == Some(*info),
                None => self.infos@[slot as int] is None,
            },
    {
        match &self.infos[slot as usize] {
            Some(info) => Some(info),
            None => None,
        }
    }

    /// The lowest occupied slot whose descriptor carries `uuid`, if any.
    pub fn find_subsystem(&self, uuid: Uuid) -> (r: Option<u16>)
        requires
            self.wf(),
        ensures
            r == spec_registry_find(*self, uuid),
            match r {
                Some(s) => {
                    &&& s < 64
                    &&& self.infos@[s as int] is Some
                    &&& self.infos@[s as int]->Some_0.uuid == uuid
                },
                None => forall|t: int|
                    0 <= t < 64 && (#[trigger] self.infos@[t]) is Some ==> self.infos@[t]->Some_0.uuid
                        != uuid,
            },
    {
        let mut s: usize = 0;
        while s < 64
            invariant
                self.wf(),
                s <= 64,
                spec_registry_find(*self, uuid) == spec_registry_find_from(*self, uuid, s as int),
                forall|t: int|
                    0 <= t < s && (#[trigger] self.infos@[t]) is Some ==> self.infos@[t]->Some_0.uuid
                        != uuid,
            decreases 64 - s,
        {
            match &self.infos[s] {
                Some(info) => {
                    if info.uuid.hi == uuid.hi && info.uuid.lo == uuid.lo {
                        proof {
                            assert(info.uuid == uuid);
                        }
                        return Some(s as u16);
                    }
                },
                None => {},
            }
            s += 1;
        }
        None
    }
}

/// Law: under `wf`, the slot that the next dynamic registration will claim
/// is still empty, so dynamic registration never reuses a slot index.
pub proof fn lemma_dynamic_slot_fresh<F: Fn(u64, u64, u64, u64, u64, u64) -> i64>(reg: Registry<F>)
    requires
        reg.wf(),
        reg.next_dyn < 64,
    ensures
        reg.slots@[reg.next_dyn as int] is None,
        reg.infos@[reg.next_dyn as int] is None,
{
}

/// Law: dispatch returns the unsupported-kernel-function sentinel exactly
/// when the decoded slot or local entry is empty — provided, as for real
/// subsystem handlers, that no registered handler itself answers with the
/// sentinel; otherwise the result is exactly the registered handler's.
pub proof fn lemma_dispatch_unsupported_iff<F: Fn(u64, u64, u64, u64, u64, u64) -> i64>(
    reg: Registry<F>,
    n: u64,
    args: (u64, u64, u64, u64, u64, u64),
    r: i64,
)
    requires
        reg.wf(),
        spec_lookup(reg, n) is None ==> r == UNSUPPORTED_KERNEL_FUNCTION,
        spec_lookup(reg, n) matches Some(f) ==> call_ensures(f, args, r),
        forall|f: F, a: (u64, u64, u64, u64, u64, u64), ret: i64|
            #[trigger] call_ensures(f, a, ret) ==> ret != UNSUPPORTED_KERNEL_FUNCTION,
    ensures
        r == UNSUPPORTED_KERNEL_FUNCTION <==> spec_lookup(reg, n) is None,
{
}

} // verus!

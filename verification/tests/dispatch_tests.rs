use winter_lily::dispatch::{Registry, SubsysInfo, SyscallTable, DYN_SUBSYS_SENTINEL};
use winter_lily::error::UNSUPPORTED_KERNEL_FUNCTION;
use winter_lily::uid::Uuid;

type Handler = fn(u64, u64, u64, u64, u64, u64) -> i64;

fn exit_handler(code: u64, _a1: u64, _a2: u64, _a3: u64, _a4: u64, _a5: u64) -> i64 {
    // The real base subsystem terminates the process with `code`; the
    // dispatch path under test only carries the handler's result back.
    code as i64
}

fn sum_handler(a0: u64, a1: u64, a2: u64, a3: u64, a4: u64, a5: u64) -> i64 {
    (a0 + a1 + a2 + a3 + a4 + a5) as i64
}

fn info(name: &str, hi: u64, lo: u64) -> SubsysInfo {
    SubsysInfo {
        name: name.to_string(),
        uuid: Uuid { hi, lo },
        subsys_version: 1,
        max_sysno: 16,
    }
}

#[test]
fn dispatch_unregistered_is_unsupported() {
    let reg: Registry<Handler> = Registry::new();
    // Empty slot, out-of-range slot, and empty entry all answer with the
    // sentinel.
    assert_eq!(reg.dispatch(0, 0, 0, 0, 0, 0, 0), UNSUPPORTED_KERNEL_FUNCTION);
    assert_eq!(reg.dispatch(63 << 12, 1, 2, 3, 4, 5, 6), UNSUPPORTED_KERNEL_FUNCTION);
    assert_eq!(reg.dispatch(64 << 12, 0, 0, 0, 0, 0, 0), UNSUPPORTED_KERNEL_FUNCTION);
    assert_eq!(reg.dispatch(u64::MAX, 0, 0, 0, 0, 0, 0), UNSUPPORTED_KERNEL_FUNCTION);
}

#[test]
fn dispatch_returns_registered_result_unmodified() {
    let mut reg: Registry<Handler> = Registry::new();
    let mut table: SyscallTable<Handler> = SyscallTable::new();
    table.set_entry(0, exit_handler);
    table.set_entry(7, sum_handler);
    let slot = reg.register_subsys(0, table, info("base", 1, 2));
    assert_eq!(slot, 0);
    // Registered entry: exactly the handler's result.
    assert_eq!(reg.dispatch(0, 42, 0, 0, 0, 0, 0), 42);
    assert_eq!(reg.dispatch(7, 1, 2, 3, 4, 5, 6), 21);
    // Empty entry in a populated slot: still unsupported.
    assert_eq!(reg.dispatch(8, 0, 0, 0, 0, 0, 0), UNSUPPORTED_KERNEL_FUNCTION);
}

#[test]
fn syscall_number_decodes_slot_and_local() {
    let mut reg: Registry<Handler> = Registry::new();
    let mut table: SyscallTable<Handler> = SyscallTable::new();
    table.set_entry(0xFFF, sum_handler);
    let slot = reg.register_subsys(3, table, info("io", 3, 3));
    assert_eq!(slot, 3);
    let n = (3u64 << 12) | 0xFFF;
    assert_eq!(reg.dispatch(n, 1, 1, 1, 1, 1, 1), 6);
    assert_eq!(reg.dispatch(3 << 12, 1, 1, 1, 1, 1, 1), UNSUPPORTED_KERNEL_FUNCTION);
}

#[test]
fn dynamic_registration_assigns_consecutive_slots() {
    let mut reg: Registry<Handler> = Registry::new();
    // The Kth dynamic registration lands at floor + K - 1.
    for k in 0..3u64 {
        let t: SyscallTable<Handler> = SyscallTable::new();
        let slot = reg.register_subsys(DYN_SUBSYS_SENTINEL, t, info("dyn", 10 + k, 0));
        assert_eq!(slot, 8 + k);
    }
    let t: SyscallTable<Handler> = SyscallTable::new();
    let slot = reg.register_subsys(1, t, info("fixed", 20, 0));
    assert_eq!(slot, 1);
    // A later dynamic registration continues where it left off; no slot
    // index is ever reused.
    let t: SyscallTable<Handler> = SyscallTable::new();
    let slot = reg.register_subsys(DYN_SUBSYS_SENTINEL, t, info("dyn", 13, 0));
    assert_eq!(slot, 11);
}

#[test]
fn enumerate_lists_occupied_slots_in_order() {
    let mut reg: Registry<Handler> = Registry::new();
    let t: SyscallTable<Handler> = SyscallTable::new();
    reg.register_subsys(2, t, info("a", 1, 0));
    let t: SyscallTable<Handler> = SyscallTable::new();
    reg.register_subsys(DYN_SUBSYS_SENTINEL, t, info("b", 2, 0));
    let t: SyscallTable<Handler> = SyscallTable::new();
    reg.register_subsys(0, t, info("c", 3, 0));
    let slots = reg.all_subsystems();
    assert_eq!(slots, vec![0u16, 2, 8]);
    assert_eq!(reg.subsys_info(2).unwrap().name, "a");
    assert!(reg.subsys_info(5).is_none());
}

#[test]
fn find_subsystem_by_uuid() {
    let mut reg: Registry<Handler> = Registry::new();
    let t: SyscallTable<Handler> = SyscallTable::new();
    reg.register_subsys(4, t, info("base", 0xAA, 0xBB));
    assert_eq!(reg.find_subsystem(Uuid { hi: 0xAA, lo: 0xBB }), Some(4));
    assert_eq!(reg.find_subsystem(Uuid { hi: 0xAA, lo: 0xBC }), None);
}

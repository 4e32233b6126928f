use winter_lily::dispatch::{Registry, SubsysInfo, SyscallTable};
use winter_lily::intercept::{
    dispatch_frame, exception_name, extract_syscall, handle_signal, inject_return,
    memory_access_violation_exception, sig_to_except, SignalDisposition, REG_RAX, SIGQUIT, SIGSEGV,
    SIGSYS,
};
use winter_lily::uid::Uuid;

type Handler = fn(u64, u64, u64, u64, u64, u64) -> i64;

fn sum_regs(a0: u64, a1: u64, a2: u64, a3: u64, a4: u64, a5: u64) -> i64 {
    (a0 + a1 + a2 + a3 + a4 + a5) as i64
}

#[test]
fn segv_maps_to_memory_access_violation() {
    // A SIGSEGV delivered outside the protected dispatch region maps to
    // the memory-access-violation exception identifier and terminates.
    let except = sig_to_except(SIGSEGV).unwrap();
    assert_eq!(except, memory_access_violation_exception());
    match handle_signal(SIGSEGV) {
        SignalDisposition::Terminate(Some(u)) => {
            assert_eq!(u, memory_access_violation_exception())
        },
        _ => panic!("expected termination with the violation identifier"),
    }
}

#[test]
fn quit_during_shutdown_does_not_recurse() {
    // The quit signal the shutdown path re-raises maps to no exception,
    // so handling it again produces no further diagnostic.
    assert_eq!(sig_to_except(SIGQUIT), None);
    assert!(matches!(handle_signal(SIGQUIT), SignalDisposition::Terminate(None)));
}

#[test]
fn fault_class_table() {
    assert!(sig_to_except(6).is_some()); // abort
    assert!(sig_to_except(7).is_some()); // bus error
    assert!(sig_to_except(4).is_some()); // illegal instruction
    assert!(sig_to_except(8).is_some()); // floating-point error
    // An unrecognized signal maps to the remote-stop identifier.
    let unknown = sig_to_except(23).unwrap();
    assert_eq!(exception_name(&unknown), Some("Killed (Remote Process)"));
    assert_eq!(
        exception_name(&memory_access_violation_exception()),
        Some("Memory Access Violation")
    );
    assert_eq!(exception_name(&sig_to_except(6).unwrap()), Some("Aborted"));
}

#[test]
fn intercept_signal_enters_dispatch() {
    assert!(matches!(handle_signal(SIGSYS), SignalDisposition::DispatchSyscall));
}

#[test]
fn register_marshaling_remaps_fourth_argument() {
    let mut regs = [0u64; 19];
    regs[13] = 0x3007; // rax: syscall number
    regs[8] = 1; // rdi
    regs[9] = 2; // rsi
    regs[12] = 3; // rdx
    regs[2] = 4; // r10 carries the fourth argument in the trap convention
    regs[0] = 5; // r8
    regs[1] = 6; // r9
    let req = extract_syscall(&regs);
    assert_eq!(req.number, 0x3007);
    assert_eq!(
        (req.a0, req.a1, req.a2, req.a3, req.a4, req.a5),
        (1, 2, 3, 4, 5, 6)
    );
    inject_return(&mut regs, -0x104);
    assert_eq!(regs[REG_RAX], (-0x104i64) as u64);
    assert_eq!(regs[8], 1);
}

#[test]
fn frame_dispatch_roundtrip() {
    let mut reg: Registry<Handler> = Registry::new();
    let mut table: SyscallTable<Handler> = SyscallTable::new();
    table.set_entry(5, sum_regs);
    reg.register_subsys(
        0,
        table,
        SubsysInfo { name: "base".to_string(), uuid: Uuid { hi: 0, lo: 1 }, subsys_version: 1, max_sysno: 8 },
    );
    let mut regs = [0u64; 19];
    regs[13] = 5; // number: slot 0, local 5
    regs[8] = 10;
    regs[9] = 20;
    regs[12] = 30;
    regs[2] = 40;
    regs[0] = 50;
    regs[1] = 60;
    dispatch_frame(&reg, &mut regs);
    assert_eq!(regs[13], 210);
    // Every other register is untouched.
    assert_eq!(regs[8], 10);
    assert_eq!(regs[2], 40);
    // An unregistered number writes back the sentinel.
    let mut regs = [0u64; 19];
    regs[13] = 0x5000;
    dispatch_frame(&reg, &mut regs);
    assert_eq!(regs[13] as i64, winter_lily::error::UNSUPPORTED_KERNEL_FUNCTION);
}

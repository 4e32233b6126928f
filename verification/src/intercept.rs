//! Syscall interception: the architecture-specific boundary that extracts a
//! syscall number and six arguments from a captured register file and
//! injects the result back, plus the mapping from fault signals to foreign
//! exception identifiers. The signal frame itself is raw memory; it reaches
//! these functions as a plain array of register words.

use vstd::prelude::*;

use crate::dispatch::{spec_lookup, Registry};
use crate::error::UNSUPPORTED_KERNEL_FUNCTION;
use crate::uid::Uuid;

verus! {

/// Number of general-purpose register words a signal frame captures.
pub const NGREGS: usize = 19;

/// Register-file index of `r8`.
pub const REG_R8: usize = 0;

/// Register-file index of `r9`.
pub const REG_R9: usize = 1;

/// Register-file index of `r10`.
pub const REG_R10: usize = 2;

/// Register-file index of `rdi`.
pub const REG_RDI: usize = 8;

/// Register-file index of `rsi`.
pub const REG_RSI: usize = 9;

/// Register-file index of `rdx`.
pub const REG_RDX: usize = 12;

/// Register-file index of `rax`, which carries the syscall number in and
/// the result out.
pub const REG_RAX: usize = 13;

/// The abort signal.
pub const SIGABRT: u32 = 6;

/// The bus-error signal.
pub const SIGBUS: u32 = 7;

/// The segmentation-violation signal.
pub const SIGSEGV: u32 = 11;

/// The illegal-instruction signal.
pub const SIGILL: u32 = 4;

/// The floating-point-error signal.
pub const SIGFPE: u32 = 8;

/// The quit signal, re-raised during exception shutdown.
pub const SIGQUIT: u32 = 3;

/// The signal the kernel delivers for an intercepted syscall.
pub const SIGSYS: u32 = 31;

/// The foreign exception raised for a process abort.
pub open spec fn spec_abort_exception() -> Uuid {
    Uuid { hi: 0x466fbae6be8b5525, lo: 0xbd04ee7153b74f55 }
}

/// The foreign exception raised for a bus error.
pub open spec fn spec_memory_access_error_exception() -> Uuid {
    Uuid { hi: 0xef1d81bc58d95779, lo: 0xa4c7540b9163cdf1 }
}

/// The foreign exception raised for a segmentation violation.
pub open spec fn spec_memory_access_violation_exception() -> Uuid {
    Uuid { hi: 0xfcf8d45189e650b5, lo: 0xb2e6396aec58a74a }
}

/// The foreign exception raised for an illegal instruction.
pub open spec fn spec_illegal_instruction_exception() -> Uuid {
    Uuid { hi: 0x9dc46cba85a45b94, lo: 0xbe2403717a40c72b }
}

/// The foreign exception raised for a floating-point error.
pub open spec fn spec_floating_point_exception() -> Uuid {
    Uuid { hi: 0x5c91c672f9715b6b, lo: 0xa806d6a6d2c8eb8a }
}

/// The foreign exception raised for an externally delivered stop or an
/// unrecognized signal.
pub open spec fn spec_remote_stop_exception() -> Uuid {
    Uuid { hi: 0x79a90b8e8f4b5134, lo: 0x8aa2ff68877017db }
}

/// The exception identifier for the segmentation-violation fault class.
pub fn memory_access_violation_exception() -> (r: Uuid)
    ensures
        r == spec_memory_access_violation_exception(),
{
    Uuid { hi: 0xfcf8d45189e650b5, lo: 0xb2e6396aec58a74a }
}

/// The foreign exception a delivered signal maps to; the quit signal maps
/// to none (quiet termination, so a quit raised during exception shutdown
/// cannot recurse into another diagnostic).
pub open spec fn spec_sig_to_except(signo: u32) -> Option<Uuid> {
    if signo == SIGABRT {
        Some(spec_abort_exception())
    } else if signo == SIGBUS {
        Some(spec_memory_access_error_exception())
    } else if signo == SIGSEGV {
        Some(spec_memory_access_violation_exception())
    } else if signo == SIGILL {
        Some(spec_illegal_instruction_exception())
    } else if signo == SIGFPE {
        Some(spec_floating_point_exception())
    } else if signo == SIGQUIT {
        None
    } else {
        Some(spec_remote_stop_exception())
    }
}

/// Maps a delivered fault signal to its foreign exception identifier.
pub fn sig_to_except(signo: u32) -> (r: Option<Uuid>)
    ensures
        r == spec_sig_to_except(signo),
{
    if signo == SIGABRT {
        Some(Uuid { hi: 0x466fbae6be8b5525, lo: 0xbd04ee7153b74f55 })
    } else if signo == SIGBUS {
        Some(Uuid { hi: 0xef1d81bc58d95779, lo: 0xa4c7540b9163cdf1 })
    } else if signo == SIGSEGV {
        Some(Uuid { hi: 0xfcf8d45189e650b5, lo: 0xb2e6396aec58a74a })
    } else if signo == SIGILL {
        Some(Uuid { hi: 0x9dc46cba85a45b94, lo: 0xbe2403717a40c72b })
    } else if signo == SIGFPE {
        Some(Uuid { hi: 0x5c91c672f9715b6b, lo: 0xa806d6a6d2c8eb8a })
    } else if signo == SIGQUIT {
        None
    } else {
        Some(Uuid { hi: 0x79a90b8e8f4b5134, lo: 0x8aa2ff68877017db })
    }
}

/// The human-readable name of a known foreign exception identifier.
pub fn exception_name(u: &Uuid) -> (r: Option<&'static str>)
    ensures
        *u == spec_abort_exception() ==> (r matches Some(s) && s@ == "Aborted"@),
        *u == spec_memory_access_violation_exception() ==> (r matches Some(s) && s@ == "Memory Access Violation"@),
        *u == spec_memory_access_error_exception() ==> (r matches Some(s) && s@ == "Memory Access Error"@),
        *u == spec_illegal_instruction_exception() ==> (r matches Some(s) && s@ == "Illegal Instruction"@),
        *u == spec_floating_point_exception() ==> (r matches Some(s) && s@ == "Floating-point Exception"@),
        *u == spec_remote_stop_exception() ==> (r matches Some(s) && s@ == "Killed (Remote Process)"@),
        r is None <==> !(*u == spec_abort_exception() || *u
            == spec_memory_access_violation_exception() || *u
            == spec_memory_access_error_exception() || *u == spec_illegal_instruction_exception()
            || *u == spec_floating_point_exception() || *u == spec_remote_stop_exception()),
{
    if u.hi == 0x466fbae6be8b5525 && u.lo == 0xbd04ee7153b74f55 {
        Some("Aborted")
    } else if u.hi == 0xfcf8d45189e650b5 && u.lo == 0xb2e6396aec58a74a {
        Some("Memory Access Violation")
    } else if u.hi == 0xef1d81bc58d95779 && u.lo == 0xa4c7540b9163cdf1 {
        Some("Memory Access Error")
    } else if u.hi == 0x9dc46cba85a45b94 && u.lo == 0xbe2403717a40c72b {
        Some("Illegal Instruction")
    } else if u.hi == 0x5c91c672f9715b6b && u.lo == 0xa806d6a6d2c8eb8a {
        Some("Floating-point Exception")
    } else if u.hi == 0x79a90b8e8f4b5134 && u.lo == 0x8aa2ff68877017db {
        Some("Killed (Remote Process)")
    } else {
        None
    }
}

/// What the process-wide signal handler does for a delivered signal.
#[derive(Clone, Copy, Debug, PartialEq, Eq, Structural)]
pub enum SignalDisposition {
    /// An intercepted syscall: marshal the register file into dispatch.
    DispatchSyscall,
    /// A fault: terminate non-recoverably, diagnosing the exception.
    Terminate(Option<Uuid>),
}

/// Decides the handler's action: only the syscall-interception signal
/// enters dispatch; every other signal terminates the process with its
/// mapped exception identifier.
pub fn handle_signal(signo: u32) -> (r: SignalDisposition)
    ensures
        signo == SIGSYS ==> r == SignalDisposition::DispatchSyscall,
        signo != SIGSYS ==> r == SignalDisposition::Terminate(spec_sig_to_except(signo)),
{
    if signo == SIGSYS {
        SignalDisposition::DispatchSyscall
    } else {
        SignalDisposition::Terminate(sig_to_except(signo))
    }
}

/// A marshaled syscall request: the number register and the six argument
/// registers, in the callee's calling convention order.
#[derive(Clone, Copy, Debug, PartialEq, Eq, Structural)]
pub struct SyscallRequest {
    /// The global syscall number.
    pub number: u64,
    /// First argument register.
    pub a0: u64,
    /// Second argument register.
    pub a1: u64,
    /// Third argument register.
    pub a2: u64,
    /// Fourth argument register: the trap convention passes it in `r10`,
    /// remapped here to the ordinary calling convention's slot.
    pub a3: u64,
    /// Fifth argument register.
    pub a4: u64,
    /// Sixth argument register.
    pub a5: u64,
}

/// Extracts the syscall number and argument registers from a captured
/// register file, applying the architecture's fourth-argument remapping
/// (`r10` stands in for the ordinary convention's register there).
pub fn extract_syscall(regs: &[u64; 19]) -> (r: SyscallRequest)
    ensures
        r.number == regs@[REG_RAX as int],
        r.a0 == regs@[REG_RDI as int],
        r.a1 == regs@[REG_RSI as int],
        r.a2 == regs@[REG_RDX as int],
        r.a3 == regs@[REG_R10 as int],
        r.a4 == regs@[REG_R8 as int],
        r.a5 == regs@[REG_R9 as int],
{
    SyscallRequest {
        number: regs[13],
        a0: regs[8],
        a1: regs[9],
        a2: regs[12],
        a3: regs[2],
        a4: regs[0],
        a5: regs[1],
    }
}

/// Writes a dispatch result back into the saved number/return register,
/// leaving every other register untouched.
pub fn inject_return(regs: &mut [u64; 19], result: i64)
    ensures
        final(regs)@ == old(regs)@.update(REG_RAX as int, result as u64),
{
    regs[13] = result as u64;
}

/// The intercepted-syscall path end to end: the syscall number and
/// argument registers are extracted from the captured register file (with
/// the fourth-argument remapping), the registered function is dispatched
/// with them, and its result — or the unsupported-kernel-function
/// sentinel — is written back into the saved number/return register, with
/// every other register untouched.
pub fn dispatch_frame<F: Fn(u64, u64, u64, u64, u64, u64) -> i64>(
    reg: &Registry<F>,
    regs: &mut [u64; 19],
)
    requires
        reg.wf(),
    ensures
        ({
            let n = old(regs)@[REG_RAX as int];
            let args = (
                old(regs)@[REG_RDI as int],
                old(regs)@[REG_RSI as int],
                old(regs)@[REG_RDX as int],
                old(regs)@[REG_R10 as int],
                old(regs)@[REG_R8 as int],
                old(regs)@[REG_R9 as int],
            );
            &&& (spec_lookup(*reg, n) is None ==> final(regs)@ == old(regs)@.update(
                REG_RAX as int,
                UNSUPPORTED_KERNEL_FUNCTION as u64,
            ))
            &&& (spec_lookup(*reg, n) matches Some(f) ==> exists|r: i64|
                #[trigger] call_ensures(f, args, r) && final(regs)@ == old(regs)@.update(
                    REG_RAX as int,
                    r as u64,
                ))
        }),
{
    let req = extract_syscall(regs);
    let r = reg.dispatch(req.number, req.a0, req.a1, req.a2, req.a3, req.a4, req.a5);
    inject_return(regs, r);
}

} // verus!

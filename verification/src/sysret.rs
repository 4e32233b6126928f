//! Marshaling between the runtime's typed results and the raw register
//! values the foreign syscall ABI carries, plus the marker traits naming
//! which types may cross that boundary.

use vstd::prelude::*;

use crate::error::Error;

verus! {

/// Types a syscall handler may produce in the raw return register.
pub trait SysretTy {

}

impl SysretTy for usize {

}

impl SysretTy for isize {

}

impl SysretTy for u32 {

}

impl SysretTy for i32 {

}

impl SysretTy for u64 {

}

impl SysretTy for i64 {

}

impl SysretTy for () {

}

/// Types a syscall handler may take from the raw argument registers.
pub trait SyscallParam {

}

impl SyscallParam for usize {

}

impl SyscallParam for isize {

}

impl SyscallParam for u32 {

}

impl SyscallParam for i32 {

}

impl SyscallParam for u64 {

}

impl SyscallParam for i64 {

}

impl SyscallParam for crate::uid::Uuid {

}

/// A typed result that marshals into the foreign return register: a
/// success value non-negative, an error its negative code.
pub trait SyscallRet: Sized {
    /// The register value this result marshals to.
    spec fn spec_sys(self) -> i64;

    /// Marshals the result into the raw return register value.
    fn into_sys(self) -> (r: i64)
        ensures
            r == self.spec_sys(),
    ;
}

impl SyscallRet for Result<(), Error> {
    open spec fn spec_sys(self) -> i64 {
        match self {
            Ok(()) => 0,
            Err(e) => e.spec_code(),
        }
    }

    fn into_sys(self) -> (r: i64) {
        match self {
            Ok(()) => 0,
            Err(e) => e.into_code(),
        }
    }
}

impl SyscallRet for Result<u32, Error> {
    open spec fn spec_sys(self) -> i64 {
        match self {
            Ok(v) => v as i64,
            Err(e) => e.spec_code(),
        }
    }

    fn into_sys(self) -> (r: i64) {
        match self {
            Ok(v) => v as i64,
            Err(e) => e.into_code(),
        }
    }
}

/// How syscalls are trapped for interception.
#[derive(Clone, Copy, Debug, PartialEq, Eq, Structural)]
pub enum FilterMode {
    /// The kernel's syscall-user-dispatch control, armed per thread.
    Prctl,
    /// A seccomp filter instead.
    Seccomp,
}

/// Whose thread a control block belongs to.
#[derive(Clone, Copy, Debug, PartialEq, Eq, Structural)]
pub enum ThreadKind {
    /// A thread running foreign code.
    Winter,
    /// A host-side helper thread.
    User,
}

} // verus!

//! The closed error taxonomy that the runtime reports to foreign callers and
//! to the external resolver.

use vstd::prelude::*;

verus! {

/// Recoverable errors returned as ordinary result codes to foreign callers,
/// plus the loader-backend errors returned to the external resolver.
#[derive(Clone, Copy, Debug, PartialEq, Eq, Structural)]
pub enum Error {
    /// A handle value failed address, alignment or liveness validation.
    InvalidHandle,
    /// A request option block was malformed or carried unknown flags.
    InvalidOption,
    /// A fixed-capacity resource (handle table) is full.
    ResourceLimitExhausted,
    /// The dispatched syscall number names no registered function.
    UnsupportedKernelFunction,
    /// The host reported an interrupted call.
    Interrupted,
    /// The host denied permission.
    Permission,
    /// A caller-supplied output buffer was too short for the value.
    InsufficientLength,
    /// A caller-supplied memory range was not accessible.
    InvalidMemory,
    /// A module could not be found in any search-path entry.
    ObjectNotFound,
    /// A TLS allocation would exceed the reserved block.
    AllocError,
    /// A module's segments could not be mapped.
    LoadError,
    /// A read from a module file failed or ended early.
    ReadError,
    /// The module is preloaded and must never be independently resolved.
    AssumePresent,
    /// A host error with no translation.
    Unknown,
}

/// The sentinel placed in the syscall return register for an unsupported
/// kernel function.
pub const UNSUPPORTED_KERNEL_FUNCTION: i64 = -0x104;

impl Error {
    /// The negative code written back into the foreign return register.
    pub open spec fn spec_code(self) -> i64 {
        match self {
            Error::InvalidHandle => -0x101i64,
            Error::InvalidOption => -0x102i64,
            Error::ResourceLimitExhausted => -0x103i64,
            Error::UnsupportedKernelFunction => -0x104i64,
            Error::Interrupted => -0x105i64,
            Error::Permission => -0x106i64,
            Error::InsufficientLength => -0x107i64,
            Error::InvalidMemory => -0x108i64,
            Error::ObjectNotFound => -0x109i64,
            Error::AllocError => -0x10Ai64,
            Error::LoadError => -0x10Bi64,
            Error::ReadError => -0x10Ci64,
            Error::AssumePresent => -0x10Di64,
            Error::Unknown => -0x800i64,
        }
    }

    /// Converts the error into its foreign result code.
    pub fn into_code(self) -> (r: i64)
        ensures
            r == self.spec_code(),
            r < 0,
    {
        match self {
            Error::InvalidHandle => -0x101i64,
            Error::InvalidOption => -0x102i64,
            Error::ResourceLimitExhausted => -0x103i64,
            Error::UnsupportedKernelFunction => -0x104i64,
            Error::Interrupted => -0x105i64,
            Error::Permission => -0x106i64,
            Error::InsufficientLength => -0x107i64,
            Error::InvalidMemory => -0x108i64,
            Error::ObjectNotFound => -0x109i64,
            Error::AllocError => -0x10Ai64,
            Error::LoadError => -0x10Bi64,
            Error::ReadError => -0x10Ci64,
            Error::AssumePresent => -0x10Di64,
            Error::Unknown => -0x800i64,
        }
    }
}

/// The runtime error a host errno value translates to: interrupted and
/// permission errors keep their identity, everything else collapses to
/// the unknown error.
pub open spec fn linux_error_to_lilium_spec(errno: i32) -> Error {
    if errno == 4 {
        Error::Interrupted
    } else if errno == 1 {
        Error::Permission
    } else {
        Error::Unknown
    }
}

/// Translates a host errno value into the runtime's taxonomy.
pub fn linux_error_to_lilium(errno: i32) -> (r: Error)
    ensures
        r == linux_error_to_lilium_spec(errno),
{
    if errno == 4 {
        Error::Interrupted
    } else if errno == 1 {
        Error::Permission
    } else {
        Error::Unknown
    }
}

} // verus!

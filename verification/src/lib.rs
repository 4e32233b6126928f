//! Verified core of a user-space compatibility runtime: the syscall
//! dispatch registry, per-thread handle table, TLS master-copy protocol,
//! dynamic-loader backend callbacks, search-path caches, and the shared
//! lock primitive they depend on.

pub mod bytes;
pub mod dispatch;
pub mod error;
pub mod handle;
pub mod info;
pub mod intercept;
pub mod io;
pub mod loader;
pub mod search;
pub mod sync;
pub mod sysret;
pub mod tls;
pub mod uid;
pub mod util;



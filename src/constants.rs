//! Default limits and settings.
use vstd::prelude::*;

verus! {

/// Default timeout for runtime operations, in seconds.
pub const DEFAULT_TIMEOUT_SECONDS: u64 = 300;

/// Default memory limit, in megabytes.
pub const DEFAULT_MEMORY_LIMIT_MB: u64 = 1024;

/// Default maximum call depth.
pub const DEFAULT_MAX_CALL_DEPTH: u32 = 1024;

/// Default maximum number of external calls per transaction.
pub const DEFAULT_MAX_EXTERNAL_CALLS: u32 = 100;

/// Default maximum gas limit.
pub const DEFAULT_MAX_GAS_LIMIT: u64 = 10_000_000;

/// Default maximum memory usage in bytes (100 MB).
pub const DEFAULT_MAX_MEMORY_BYTES: u64 = 104_857_600;

/// Default maximum execution time advertised by runtime capabilities, in seconds.
pub const DEFAULT_MAX_EXECUTION_TIME_SECONDS: u64 = 300;

/// Maximum path length for security validation.
pub const MAX_PATH_LENGTH: usize = 4096;

/// Maximum symlink chain length.
pub const MAX_SYMLINK_CHAIN_LENGTH: usize = 100;

} // verus!

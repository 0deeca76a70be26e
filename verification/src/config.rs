use vstd::prelude::*;

verus! {

/// Most connections that the standard pool holds at a time.
pub const DEFAULT_MAX_SIZE: u32 = 10;

/// Seconds that a caller of the standard pool waits for a connection before
/// the lease fails.
pub const DEFAULT_CONNECTION_TIMEOUT_SECS: u64 = 30;

/// The largest pool that can be asked for. The pool opens every one of its
/// connections when it is built, so its size is kept within what a process
/// can hold open.
pub const MAX_POOL_SIZE: u32 = 1024;

/// The longest wait that can be asked for, one day. The pool adds the wait
/// to the current instant, which must not overflow.
pub const MAX_CONNECTION_TIMEOUT_SECS: u64 = 86_400;

/// The limits a pool is built with. Everything else about the pool is as
/// `r2d2` has it when nothing is said: all connections are opened at once,
/// each is tested when it is leased, idle ones are closed after ten minutes
/// and any after thirty.
#[derive(Clone, Copy, Debug, PartialEq, Eq, Structural)]
pub struct PoolConfig {
    /// Most connections held at a time, leased and idle together.
    pub max_size: u32,
    /// Seconds to wait for a connection, at startup and on each lease.
    pub connection_timeout_secs: u64,
}

impl PoolConfig {
    /// A pool can be built with these limits: each is positive and within
    /// its maximum.
    pub open spec fn is_valid(&self) -> bool {
        &&& 0 < self.max_size <= MAX_POOL_SIZE
        &&& 0 < self.connection_timeout_secs <= MAX_CONNECTION_TIMEOUT_SECS
    }

    /// The limits of the standard pool.
    pub open spec fn spec_standard() -> PoolConfig {
        PoolConfig {
            max_size: DEFAULT_MAX_SIZE,
            connection_timeout_secs: DEFAULT_CONNECTION_TIMEOUT_SECS,
        }
    }

    /// The limits of the standard pool: ten connections, thirty seconds.
    pub fn standard() -> (config: PoolConfig)
        ensures
            config == Self::spec_standard(),
            config.is_valid(),
    {
        PoolConfig {
            max_size: DEFAULT_MAX_SIZE,
            connection_timeout_secs: DEFAULT_CONNECTION_TIMEOUT_SECS,
        }
    }

    /// Whether a pool can be built with these limits.
    pub fn validate(&self) -> (valid: bool)
        ensures
            valid == self.is_valid(),
    {
        0 < self.max_size && self.max_size <= MAX_POOL_SIZE && 0 < self.connection_timeout_secs
            && self.connection_timeout_secs <= MAX_CONNECTION_TIMEOUT_SECS
    }
}

} // verus!

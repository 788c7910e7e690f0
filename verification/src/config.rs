use vstd::prelude::*;

verus! {

/// Immutable pool configuration. Instants and durations are carried as
/// milliseconds on the pool's own monotonic clock.
pub struct PoolConfig {
    /// Hard upper bound on `num_conns + pending_conns`; must be positive.
    pub max_size: u32,
    /// Target minimum of `idle.len() + pending_conns`; `None` means 0.
    pub min_idle: Option<u32>,
    /// Maximum age of a connection from its birth, if set.
    pub max_lifetime: Option<u64>,
    /// Maximum time a connection may sit idle, if set.
    pub idle_timeout: Option<u64>,
    /// Budget for a checkout and for a connector's retry window; positive.
    pub connection_timeout: u64,
    /// Period of the reaper task; positive.
    pub reaper_rate: u64,
    /// Validate a popped connection before handing it to the caller.
    pub test_on_check_out: bool,
}

impl PoolConfig {
    /// The idle minimum with the unset case read as zero.
    pub open spec fn spec_min_idle(self) -> nat {
        match self.min_idle {
            Some(k) => k as nat,
            None => 0,
        }
    }

    /// A configuration the pool can be built with. The idle minimum cannot
    /// exceed `max_size`: idle connections and pending admissions both count
    /// against the pool's hard bound.
    pub open spec fn valid(self) -> bool {
        &&& self.max_size > 0
        &&& self.connection_timeout > 0
        &&& self.reaper_rate > 0
        &&& self.spec_min_idle() <= self.max_size
    }

    /// The idle minimum as a number, for callers outside ghost code.
    pub fn min_idle_or_zero(&self) -> (r: u32)
        ensures
            r == self.spec_min_idle(),
    {
        match self.min_idle {
            Some(k) => k,
            None => 0,
        }
    }
}

} // verus!

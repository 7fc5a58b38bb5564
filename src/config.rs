use vstd::prelude::*;

verus! {

/// Milliseconds in one second.
pub const MILLIS_PER_SEC: u64 = 1000;

/// Default bound on live plus pending connections.
pub const DEFAULT_MAX_SIZE: u32 = 10;

/// Default maximum lifetime of a connection: 30 minutes.
pub const DEFAULT_MAX_LIFETIME_MS: u64 = 1800000;

/// Default idle timeout: 10 minutes.
pub const DEFAULT_IDLE_TIMEOUT_MS: u64 = 600000;

/// Default deadline for a checkout and for one connector's retry loop: 30 seconds.
pub const DEFAULT_CONNECTION_TIMEOUT_MS: u64 = 30000;

/// Default period of the reaper: 30 seconds.
pub const DEFAULT_REAPER_RATE_MS: u64 = 30000;

/// The tunables of a pool, accumulated fluently and frozen when the pool is built.
///
/// Durations are in milliseconds.
#[derive(Debug, Clone, Copy, PartialEq, Eq)]
pub struct Builder {
    /// The maximum number of connections allowed (live plus pending).
    pub max_size: u32,
    /// The minimum idle connection count the pool will attempt to maintain.
    pub min_idle: Option<u32>,
    /// Whether or not to test the connection on checkout.
    pub test_on_check_out: bool,
    /// The maximum lifetime, if any, that a connection is allowed.
    pub max_lifetime: Option<u64>,
    /// The duration, if any, after which idle connections are closed.
    pub idle_timeout: Option<u64>,
    /// The duration to wait for a connection before giving up.
    pub connection_timeout: u64,
    /// The time interval used to wake up and reap connections.
    pub reaper_rate: u64,
}

/// A duration setting is either unset or positive.
pub open spec fn positive_if_set(d: Option<u64>) -> bool {
    d != Some(0u64)
}

impl Builder {
    /// The settings that each setter enforces as it is called.
    pub open spec fn wf(&self) -> bool {
        &&& self.max_size > 0
        &&& positive_if_set(self.max_lifetime)
        &&& positive_if_set(self.idle_timeout)
        &&& self.connection_timeout > 0
    }

    /// A configuration from which a pool may be built: well formed, and
    /// `min_idle`, when set, no larger than `max_size`.
    pub open spec fn buildable(&self) -> bool {
        &&& self.wf()
        &&& self.min_idle matches Some(m) ==> m <= self.max_size
    }

    /// The idle count that replenishment aims for (zero when `min_idle` is unset).
    pub open spec fn desired_idle(&self) -> nat {
        match self.min_idle {
            Some(m) => m as nat,
            None => 0,
        }
    }

    /// The default settings.
    pub open spec fn defaults() -> Builder {
        Builder {
            max_size: DEFAULT_MAX_SIZE,
            min_idle: None,
            test_on_check_out: true,
            max_lifetime: Some(DEFAULT_MAX_LIFETIME_MS),
            idle_timeout: Some(DEFAULT_IDLE_TIMEOUT_MS),
            connection_timeout: DEFAULT_CONNECTION_TIMEOUT_MS,
            reaper_rate: DEFAULT_REAPER_RATE_MS,
        }
    }

    /// Constructs a new `Builder` holding the default settings.
    pub fn new() -> (r: Builder)
        ensures
            r == Builder::defaults(),
            r.buildable(),
    {
        Builder {
            max_size: DEFAULT_MAX_SIZE,
            min_idle: None,
            test_on_check_out: true,
            max_lifetime: Some(DEFAULT_MAX_LIFETIME_MS),
            idle_timeout: Some(DEFAULT_IDLE_TIMEOUT_MS),
            connection_timeout: DEFAULT_CONNECTION_TIMEOUT_MS,
            reaper_rate: DEFAULT_REAPER_RATE_MS,
        }
    }

    /// Sets the maximum number of connections managed by the pool.
    pub fn max_size(self, max_size: u32) -> (r: Builder)
        requires
            max_size > 0,
        ensures
            r == (Builder { max_size, ..self }),
    {
        Builder { max_size, ..self }
    }

    /// Sets the minimum idle connection count maintained by the pool.
    pub fn min_idle(self, min_idle: Option<u32>) -> (r: Builder)
        ensures
            r == (Builder { min_idle, ..self }),
    {
        Builder { min_idle, ..self }
    }

    /// Sets whether a connection is validated before it is handed out.
    pub fn test_on_check_out(self, test_on_check_out: bool) -> (r: Builder)
        ensures
            r == (Builder { test_on_check_out, ..self }),
    {
        Builder { test_on_check_out, ..self }
    }

    /// Sets the maximum lifetime of connections in the pool.
    pub fn max_lifetime(self, max_lifetime: Option<u64>) -> (r: Builder)
        requires
            positive_if_set(max_lifetime),
        ensures
            r == (Builder { max_lifetime, ..self }),
    {
        Builder { max_lifetime, ..self }
    }

    /// Sets the idle timeout used by the pool.
    pub fn idle_timeout(self, idle_timeout: Option<u64>) -> (r: Builder)
        requires
            positive_if_set(idle_timeout),
        ensures
            r == (Builder { idle_timeout, ..self }),
    {
        Builder { idle_timeout, ..self }
    }

    /// Sets the deadline of a checkout and of one connector's retry loop.
    pub fn connection_timeout(self, connection_timeout: u64) -> (r: Builder)
        requires
            connection_timeout > 0,
        ensures
            r == (Builder { connection_timeout, ..self }),
    {
        Builder { connection_timeout, ..self }
    }

    /// Sets the period of the reaper.
    pub fn reaper_rate(self, reaper_rate: u64) -> (r: Builder)
        ensures
            r == (Builder { reaper_rate, ..self }),
    {
        Builder { reaper_rate, ..self }
    }

    /// Whether the settings allow a pool to be built: `min_idle`, when set,
    /// is no larger than `max_size`.
    pub fn min_idle_fits(&self) -> (r: bool)
        ensures
            r == (self.min_idle matches Some(m) ==> m <= self.max_size),
    {
        match self.min_idle {
            Some(m) => m <= self.max_size,
            None => true,
        }
    }

    /// Whether the pool needs a reaper: a maximum lifetime or an idle timeout is set.
    pub fn reaper_enabled(&self) -> (r: bool)
        ensures
            r == (self.max_lifetime is Some || self.idle_timeout is Some),
    {
        self.max_lifetime.is_some() || self.idle_timeout.is_some()
    }
}

impl Default for Builder {
    fn default() -> (r: Builder)
        ensures
            r == Builder::defaults(),
    {
        Builder::new()
    }
}

} // verus!

use vstd::prelude::*;
use crate::record::elapsed;

verus! {

/// The first pause between two connection attempts, in milliseconds.
pub const INITIAL_BACKOFF_MS: u64 = 200;

/// The pause that follows a failed attempt, given the previous pause
/// (zero before the first): 200 ms at first, then doubled, never more than
/// half the connection timeout.
pub open spec fn backoff_after(delay: u64, connection_timeout: u64) -> int {
    let grown: int = if delay == 0 {
        INITIAL_BACKOFF_MS as int
    } else {
        2 * delay
    };
    let cap: int = (connection_timeout / 2) as int;
    if grown < cap {
        grown
    } else {
        cap
    }
}

/// The retry schedule of one connector: when it started and the last pause.
#[derive(Debug, Clone, Copy, PartialEq, Eq)]
pub struct Backoff {
    /// When the connector made its first attempt.
    pub start: u64,
    /// The last pause, zero before the first failure.
    pub delay: u64,
    /// The connector's overall deadline, measured from `start`.
    pub connection_timeout: u64,
}

impl Backoff {
    /// A schedule for a connector that starts at `start`.
    pub fn new(start: u64, connection_timeout: u64) -> (r: Backoff)
        ensures
            r == (Backoff { start, delay: 0, connection_timeout }),
    {
        Backoff { start, delay: 0, connection_timeout }
    }

    /// An attempt failed at `now`. Returns `None` when the deadline has
    /// passed and the connector gives up with this last error; otherwise the
    /// pause before the next attempt, which becomes the last pause.
    pub fn on_failure(&mut self, now: u64) -> (r: Option<u64>)
        ensures
            r is None <==> elapsed(now, old(self).start) >= old(self).connection_timeout,
            r is None ==> *final(self) == *old(self),
            r matches Some(d) ==> {
                &&& d == backoff_after(old(self).delay, old(self).connection_timeout)
                &&& *final(self) == (Backoff { delay: d, ..*old(self) })
            },
    {
        if now.saturating_sub(self.start) >= self.connection_timeout {
            return None;
        }
        let cap = self.connection_timeout / 2;
        let d = if self.delay == 0 {
            if INITIAL_BACKOFF_MS < cap {
                INITIAL_BACKOFF_MS
            } else {
                cap
            }
        } else if self.delay <= cap / 2 {
            2 * self.delay
        } else {
            cap
        };
        self.delay = d;
        Some(d)
    }
}

} // verus!

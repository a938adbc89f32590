//! The keep-alive scheduler's decision logic: when a ping pass over
//! the registry is due. The timer that supplies the clock readings and
//! the task that runs the loop live with the host runtime; the
//! decision — fire now or not — is here, and firing is what calls
//! `Registry::keep_alive_tick`.

use vstd::prelude::*;

verus! {

/// Default spacing of keep-alive pings, in milliseconds.
pub const DEFAULT_KEEP_ALIVE_INTERVAL_MS: u64 = 15000;

/// The scheduler's whole state: the configured interval and the clock
/// reading of the last ping pass.
#[derive(Clone, Copy, PartialEq, Eq, Structural, Debug)]
pub struct KeepAliveSchedule {
    pub interval_ms: u64,
    pub last_tick_ms: u64,
}

impl KeepAliveSchedule {
    /// A ping pass is due once a full interval has gone by.
    pub open spec fn due(self, now_ms: u64) -> bool {
        now_ms >= self.last_tick_ms + self.interval_ms
    }

    pub fn new(interval_ms: u64, now_ms: u64) -> (s: Self)
        ensures
            s.interval_ms == interval_ms,
            s.last_tick_ms == now_ms,
    {
        KeepAliveSchedule { interval_ms, last_tick_ms: now_ms }
    }

    /// One look at the clock: fires exactly when a full interval has
    /// gone by since the last pass, and then restarts the interval.
    pub fn poll(&mut self, now_ms: u64) -> (fire: bool)
        ensures
            fire == old(self).due(now_ms),
            fire ==> final(self).last_tick_ms == now_ms && final(self).interval_ms == old(
                self,
            ).interval_ms,
            !fire ==> *final(self) == *old(self),
    {
        if now_ms >= self.last_tick_ms && now_ms - self.last_tick_ms >= self.interval_ms {
            self.last_tick_ms = now_ms;
            true
        } else {
            false
        }
    }
}

} // verus!

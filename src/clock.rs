use vstd::prelude::*;

verus! {

/// A source of the current time, in milliseconds since the Unix epoch.
pub trait Clock {
    fn now_millis(&self) -> i64;
}

/// Relies on `chrono::Utc::now` and `DateTime::timestamp_millis`: the system
/// time, of which nothing is known in advance.
#[verifier::external_body]
fn system_now_millis() -> i64 {
    chrono::Utc::now().timestamp_millis()
}

/// The system clock.
#[derive(Clone, Copy, Debug)]
pub struct SystemClock;

impl Clock for SystemClock {
    fn now_millis(&self) -> i64 {
        system_now_millis()
    }
}

/// A clock that stands still until it is moved, for deterministic runs.
#[derive(Clone, Copy, Debug)]
pub struct ManualClock {
    pub now: i64,
}

impl ManualClock {
    pub fn new(now: i64) -> (r: ManualClock)
        ensures
            r.now == now,
    {
        ManualClock { now }
    }

    /// Moves the clock forward by `millis`.
    pub fn advance(&mut self, millis: i64)
        requires
            0 <= millis,
            old(self).now + millis <= i64::MAX,
        ensures
            final(self).now == old(self).now + millis,
    {
        self.now = self.now + millis;
    }
}

impl Clock for ManualClock {
    fn now_millis(&self) -> i64 {
        self.now
    }
}

} // verus!

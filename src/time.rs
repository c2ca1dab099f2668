//! A clock under the game's control, decoupled from wall time.
use vstd::prelude::*;

verus! {

/// Game clock fed with instants (microseconds on a monotonic scale). It
/// measures the time since its last reset and the step between ticks.
pub struct ControlledTime {
    pub startup: u64,
    pub last_update: Option<u64>,
    pub delta: u64,
    pub seconds_since_startup: u64,
}

/// `a - b`, or zero when `b` is later than `a`.
pub open spec fn since(a: u64, b: u64) -> u64 {
    if a >= b {
        (a - b) as u64
    } else {
        0
    }
}

/// The clock `c` after one tick at `instant`.
pub open spec fn ticked(c: ControlledTime, instant: u64) -> ControlledTime {
    ControlledTime {
        startup: c.startup,
        last_update: Some(instant),
        delta: match c.last_update {
            Some(last) => since(instant, last),
            None => 0,
        },
        seconds_since_startup: since(instant, c.startup),
    }
}

impl ControlledTime {
    /// A clock reset at `now` that has not ticked yet.
    pub open spec fn new_spec(now: u64) -> ControlledTime {
        ControlledTime { startup: now, last_update: None, delta: 0, seconds_since_startup: 0 }
    }

    /// A clock reset at `now` that has not ticked yet.
    pub fn new(now: u64) -> (r: ControlledTime)
        ensures
            r == ControlledTime::new_spec(now),
            r.startup == now,
            r.last_update is None,
            r.delta == 0,
            r.seconds_since_startup == 0,
    {
        ControlledTime { startup: now, last_update: None, delta: 0, seconds_since_startup: 0 }
    }

    /// Restarts the timeline at `now`: elapsed time and step become zero and
    /// the last-tick marker is cleared.
    pub fn reset_time(&mut self, now: u64)
        ensures
            *final(self) == ControlledTime::new_spec(now),
            final(self).startup == now,
            final(self).last_update is None,
            final(self).delta == 0,
            final(self).seconds_since_startup == 0,
    {
        self.startup = now;
        self.last_update = None;
        self.delta = 0;
        self.seconds_since_startup = 0;
    }

    /// One tick at `instant`: the step is the time since the previous tick
    /// (zero on the first tick after a reset) and the elapsed time is
    /// measured from the reset.
    pub fn update_with_instant(&mut self, instant: u64)
        ensures
            *final(self) == ticked(*old(self), instant),
            final(self).startup == old(self).startup,
            final(self).last_update == Some(instant),
            final(self).delta == match old(self).last_update {
                Some(last) => since(instant, last),
                None => 0,
            },
            final(self).seconds_since_startup == since(instant, old(self).startup),
    {
        self.delta = match self.last_update {
            Some(last) => instant.saturating_sub(last),
            None => 0,
        };
        self.seconds_since_startup = instant.saturating_sub(self.startup);
        self.last_update = Some(instant);
    }

    /// Time since the last reset, as of the last tick, in microseconds.
    pub fn seconds_since_startup(&self) -> (r: u64)
        ensures
            r == self.seconds_since_startup,
    {
        self.seconds_since_startup
    }

    /// Step of the last tick, in microseconds, for schedule windows.
    pub fn delta_seconds_f64(&self) -> (r: u64)
        ensures
            r == self.delta,
    {
        self.delta
    }

    /// Step of the last tick, in microseconds, for motion.
    pub fn delta_seconds(&self) -> (r: u64)
        ensures
            r == self.delta,
    {
        self.delta
    }
}

} // verus!

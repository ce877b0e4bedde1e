//! The auto-play timer: whether the simulation runs by itself, and when
//! its next step is due.
//!
//! Times are nanoseconds read from a monotonic clock by the caller; the
//! timer only compares them.

use vstd::prelude::*;

verus! {

/// The time from `since` to `now`, zero when `now` is earlier.
pub open spec fn elapsed(since: u64, now: u64) -> int {
    if now >= since {
        now - since
    } else {
        0
    }
}

#[derive(Clone, Copy, Debug, PartialEq, Eq, Structural)]
pub enum LoopState {
    /// Stepping by itself; the last automatic step was at `last_update`.
    Playing { last_update: u64 },
    Stopped,
}

impl LoopState {
    /// Whether a step is due at `now`.
    pub open spec fn due(self, now: u64, interval: u64) -> bool {
        match self {
            LoopState::Playing { last_update } => elapsed(last_update, now) >= interval,
            LoopState::Stopped => false,
        }
    }

    pub open spec fn playing(self) -> bool {
        self is Playing
    }

    pub fn new() -> (r: Self)
        ensures
            r == LoopState::Stopped,
    {
        LoopState::Stopped
    }

    /// Whether a step is due at `now`, without changing the timer.
    pub fn should_step(&self, now: u64, interval: u64) -> (r: bool)
        ensures
            r == self.due(now, interval),
    {
        match self {
            LoopState::Playing { last_update } => {
                let since = if now >= *last_update {
                    now - *last_update
                } else {
                    0
                };
                since >= interval
            },
            LoopState::Stopped => false,
        }
    }

    /// Polls the timer at `now`: when a step is due, restarts the interval
    /// from `now` and reports it; otherwise changes nothing.
    pub fn update(&mut self, now: u64, interval: u64) -> (r: bool)
        ensures
            r == old(self).due(now, interval),
            *final(self) == (if r {
                LoopState::Playing { last_update: now }
            } else {
                *old(self)
            }),
    {
        if self.should_step(now, interval) {
            *self = LoopState::Playing { last_update: now };
            true
        } else {
            false
        }
    }

    pub fn is_playing(&self) -> (r: bool)
        ensures
            r == self.playing(),
    {
        match self {
            LoopState::Stopped => false,
            LoopState::Playing { .. } => true,
        }
    }
}

} // verus!

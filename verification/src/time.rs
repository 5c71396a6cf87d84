//! Timing configuration: how many animation steps a transition occupies.

use vstd::prelude::*;

verus! {

/// A time span, counted as `ticks` units of `num / denom` seconds each.
///
/// A duration of 500 milliseconds is `ticks = 500` with a scaling factor of
/// `1 / 1000`.
#[derive(Clone, Copy, Debug, PartialEq, Eq, Structural)]
pub struct Duration {
    /// The number of time units.
    pub ticks: u32,
    /// The numerator of the unit's scaling factor, in seconds.
    pub num: u32,
    /// The denominator of the unit's scaling factor, in seconds.
    pub denom: u32,
}

impl Duration {
    /// A duration has a meaningful scaling factor: no zero numerator or
    /// denominator.
    pub open spec fn wf(&self) -> bool {
        self.num >= 1 && self.denom >= 1
    }

    /// A duration of `ms` milliseconds.
    pub fn milliseconds(ms: u32) -> (d: Duration)
        ensures
            d == (Duration { ticks: ms, num: 1u32, denom: 1000u32 }),
            d.wf(),
    {
        Duration { ticks: ms, num: 1, denom: 1000 }
    }

    /// A duration of `s` seconds.
    pub fn seconds(s: u32) -> (d: Duration)
        ensures
            d == (Duration { ticks: s, num: 1u32, denom: 1u32 }),
            d.wf(),
    {
        Duration { ticks: s, num: 1, denom: 1 }
    }
}

/// Timing configuration: a refresh rate in frames per second and the duration
/// of one full transition.
#[derive(Clone, Copy, Debug, PartialEq, Eq, Structural)]
pub struct TimeConfig {
    /// The refresh rate, in frames per second.
    pub refresh_rate: u32,
    /// The duration of one full transition.
    pub transition_time: Duration,
}

impl TimeConfig {
    /// The number of frames a full transition occupies:
    /// `refresh_rate * transition_time`, in whole frames.
    pub open spec fn spec_transition_steps(&self) -> int {
        self.refresh_rate as int * self.transition_time.ticks as int
            * self.transition_time.num as int / self.transition_time.denom as int
    }

    /// The step count can be computed without overflowing a `u32`.
    pub open spec fn wf(&self) -> bool {
        &&& self.transition_time.wf()
        &&& self.refresh_rate as int * self.transition_time.ticks as int
            * self.transition_time.num as int <= u32::MAX as int
    }

    /// Builds a new timing configuration.
    pub fn new(refresh_rate: u32, transition_time: Duration) -> (tc: TimeConfig)
        ensures
            tc == (TimeConfig { refresh_rate, transition_time }),
    {
        TimeConfig { refresh_rate, transition_time }
    }

    /// Returns the number of steps for a transition.
    pub fn transition_steps(&self) -> (steps: u32)
        requires
            self.wf(),
        ensures
            steps == self.spec_transition_steps(),
    {
        proof {
            assert(self.refresh_rate * self.transition_time.ticks
                <= self.refresh_rate * self.transition_time.ticks * self.transition_time.num)
                by (nonlinear_arith)
                requires self.transition_time.num >= 1;
        }
        self.refresh_rate * self.transition_time.ticks * self.transition_time.num
            / self.transition_time.denom
    }
}

} // verus!

//! A lightweight start/elapsed primitive over the timestamp counter.

use vstd::prelude::*;

use crate::cpu::CPUInfo;

verus! {

/// The counter ticks from `start` to `end`: their difference, or zero if the
/// counter reads lower at `end` than at `start`.
pub open spec fn spec_elapsed(start: u64, end: u64) -> u64 {
    if start <= end {
        (end - start) as u64
    } else {
        0
    }
}

/// Compute the ticks elapsed from the counter reading `start` to the counter
/// reading `end`.
pub fn elapsed_between(start: u64, end: u64) -> (r: u64)
    ensures
        r == spec_elapsed(start, end),
{
    if start <= end {
        end - start
    } else {
        0
    }
}

/// A captured timestamp-counter reading, for measuring the ticks spent in a
/// stretch of code without going through full calibration.
pub struct CycleInstant {
    start: u64,
}

impl CycleInstant {
    /// The counter reading captured at creation.
    pub closed spec fn spec_start(self) -> u64 {
        self.start
    }

    /// Capture the current timestamp-counter reading.
    pub fn now() -> CycleInstant {
        CycleInstant { start: CPUInfo::get_time_stamp() }
    }

    /// Counter ticks elapsed since this instant was captured: the current
    /// counter reading minus the captured start. What comes back depends on
    /// the counter; for any reading `end`, the result is
    /// `spec_elapsed(self.spec_start(), end)`.
    pub fn elapsed(&self) -> u64 {
        let end: u64 = CPUInfo::get_time_stamp();
        elapsed_between(self.start, end)
    }
}

} // verus!

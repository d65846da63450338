//! The timestamp source and the frequency calibrator.
//!
//! The timestamp source reads a free-running counter in nanosecond ticks.
//! Calibration runs the constant-latency loop under that counter and derives
//! the current core frequency together with the factor that converts raw
//! counter deltas into reference cycles.

use vstd::arithmetic::div_mod::lemma_div_nonincreasing;
use vstd::arithmetic::div_mod::lemma_fundamental_div_mod;
use vstd::arithmetic::div_mod::lemma_mod_bound;
use vstd::arithmetic::div_mod::lemma_mod_multiples_basic;
use vstd::prelude::*;

use crate::instant::elapsed_between;
use crate::latency::const_cycle_loop;

verus! {

/// The number of reference cycles the calibration loop executes.
pub const CALIBRATION_CYCLES: u64 = 1_000_000;

#[verifier::external_type_specification]
#[verifier::external_body]
pub struct ExSystemTime(std::time::SystemTime);

/// Relies on `std::time::SystemTime::now`: returns the current wall-clock
/// time of the system.
#[verifier::external_body]
fn wall_clock_now() -> std::time::SystemTime {
    std::time::SystemTime::now()
}

/// Relies on `std::time::SystemTime::duration_since`: the duration from the
/// Unix epoch to `t`, here taken as nanoseconds truncated to 64 bits, or zero
/// if the system clock stands before the epoch.
#[verifier::external_body]
fn nanos_since_epoch(t: &std::time::SystemTime) -> u64 {
    match t.duration_since(std::time::UNIX_EPOCH) {
        Ok(d) => d.as_nanos() as u64,
        Err(_) => 0,
    }
}

/// Frequency information derived by one calibration run.
///
/// The counter-to-cycle scaling factor is the exact ratio
/// `tsc_scaling_num / tsc_scaling_den`: reference cycles executed per tick of
/// the timestamp counter. Multiplying a raw counter delta by this ratio
/// converts it into reference cycles.
#[derive(Debug, Clone, Copy, PartialEq, Eq, Structural)]
pub struct FreqInfo {
    /// Current core running frequency in Hz, rounded to the nearest 50 MHz.
    pub frequency: u64,
    /// Numerator of the scaling factor: cycles executed during calibration.
    pub tsc_scaling_num: u64,
    /// Denominator of the scaling factor: counter ticks observed meanwhile.
    pub tsc_scaling_den: u64,
}

/// The frequency estimate before rounding: cycles per second, from `cycles`
/// cycles executed over `elapsed_ns` nanoseconds.
pub open spec fn raw_frequency_hz(cycles: int, elapsed_ns: int) -> int {
    cycles * 1_000_000_000 / elapsed_ns
}

/// Rounding to the nearest multiple of 50 MHz, halves rounding up.
pub open spec fn round_to_50_mhz(hz: int) -> int {
    ((hz + 25_000_000) / 50_000_000) * 50_000_000
}

/// The calibrated core frequency: the raw estimate rounded to 50 MHz.
pub open spec fn calibrated_frequency_hz(cycles: int, elapsed_ns: int) -> int {
    round_to_50_mhz(raw_frequency_hz(cycles, elapsed_ns))
}

/// The rounding really is to the nearest multiple of 50 MHz: it moves a
/// frequency estimate by no more than half a step, 25 MHz, in either
/// direction.
pub proof fn lemma_round_within_half_step(hz: int)
    requires
        0 <= hz,
    ensures
        round_to_50_mhz(hz) - hz <= 25_000_000,
        hz - round_to_50_mhz(hz) < 25_000_000,
{
    lemma_fundamental_div_mod(hz + 25_000_000, 50_000_000);
    lemma_mod_bound(hz + 25_000_000, 50_000_000);
}

/// Derive the rounded core frequency from one calibration observation:
/// `cycles` reference cycles were executed while `elapsed_ns` nanoseconds
/// passed on the wall clock.
pub fn derive_frequency_hz(cycles: u64, elapsed_ns: u64) -> (r: u64)
    requires
        0 < elapsed_ns,
        cycles <= 4_000_000_000,
    ensures
        r == calibrated_frequency_hz(cycles as int, elapsed_ns as int),
        r % 50_000_000 == 0,
{
    let product: u64 = cycles * 1_000_000_000;
    proof {
        lemma_div_nonincreasing(product as int, elapsed_ns as int);
    }
    let raw: u64 = product / elapsed_ns;
    proof {
        lemma_fundamental_div_mod((raw + 25_000_000) as int, 50_000_000);
        lemma_mod_multiples_basic(((raw + 25_000_000) as int) / 50_000_000, 50_000_000);
    }
    ((raw + 25_000_000) / 50_000_000) * 50_000_000
}

/// Access to the timestamp counter and the frequency calibrator.
pub struct CPUInfo;

impl CPUInfo {
    /// Read the current value of the free-running timestamp counter.
    pub fn get_time_stamp() -> u64 {
        nanos_since_epoch(&wall_clock_now())
    }

    /// Measure the current core frequency.
    ///
    /// Runs the constant-latency loop under the timestamp counter, and
    /// derives the rounded frequency and the counter-to-cycle scaling factor
    /// from the observation. The loop's return value is folded
    /// back into the elapsed time as a micro-correction term, which also
    /// forces the dependency chain to be evaluated.
    ///
    /// Work on a sibling hardware thread of the same physical core during the
    /// measurement window skews the result; this is not detected.
    pub fn get_frequency_hz() -> (r: FreqInfo)
        ensures
            r.tsc_scaling_num == CALIBRATION_CYCLES,
            0 < r.tsc_scaling_den,
            r.frequency % 50_000_000 == 0,
            r.frequency == calibrated_frequency_hz(
                CALIBRATION_CYCLES as int,
                r.tsc_scaling_den as int,
            ),
    {
        let ts_s: u64 = CPUInfo::get_time_stamp();
        let acc: u64 = const_cycle_loop(CALIBRATION_CYCLES);
        let ts_e: u64 = CPUInfo::get_time_stamp();
        let delta: u64 = elapsed_between(ts_s, ts_e);
        let observed: u64 = delta + acc;
        let elapsed_ns: u64 = if observed == 0 {
            1
        } else {
            observed
        };
        let frequency: u64 = derive_frequency_hz(CALIBRATION_CYCLES, elapsed_ns);
        FreqInfo { frequency, tsc_scaling_num: CALIBRATION_CYCLES, tsc_scaling_den: elapsed_ns }
    }
}

} // verus!

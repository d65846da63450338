//! A measurement kernel for micro-benchmarking in CPU reference cycles.
//!
//! The crate reads a free-running timestamp counter, calibrates the mapping
//! between counter ticks and wall-clock time, accumulates cycle-duration
//! samples for a named code region, and exposes the small arithmetic and
//! formatting operations a benchmarking harness needs to swap cycle-based
//! measurement in for its default wall-clock measurement.

mod counter;
mod cpu;
mod instant;
mod latency;
mod region;

pub use counter::{CriterionCycleCounter, ThroughputKind};
pub use cpu::{
    calibrated_frequency_hz, derive_frequency_hz, lemma_round_within_half_step, raw_frequency_hz,
    round_to_50_mhz, CPUInfo, FreqInfo, CALIBRATION_CYCLES,
};
pub use instant::{elapsed_between, spec_elapsed, CycleInstant};
pub use latency::const_cycle_loop;
pub use region::{folded, lemma_fold_monotonic, seq_sum, MeasureRegion, MeasureSample};

//! The measurement backend a benchmarking harness plugs in: start/end a
//! cycle measurement, combine measured values, and label them with
//! cycle-based units.
//!
//! Rendering a measured value as a decimal numeral takes floating point and
//! stays outside the verified kernel; the operations here take the rendered
//! numeral and attach the unit the harness expects.

use vstd::prelude::*;
use vstd::string::StringExecFns;

use crate::instant::CycleInstant;

verus! {

/// The throughput kinds the formatter knows: a byte count or an element
/// count processed per iteration.
#[derive(Debug, Clone, Copy)]
pub enum ThroughputKind {
    Bytes,
    Elements,
}

/// Cycle-accurate measurement backend for a benchmarking harness.
///
/// A measured value is an elapsed tick count of the timestamp counter as a
/// 64-bit integer; values from several batches are combined by addition with
/// zero as the identity.
pub struct CriterionCycleCounter;

impl CriterionCycleCounter {
    /// Begin one measurement: capture the counter now.
    pub fn start(&self) -> CycleInstant {
        CycleInstant::now()
    }

    /// Finish one measurement: the ticks elapsed since `i` was captured.
    pub fn end(&self, i: CycleInstant) -> u64 {
        i.elapsed()
    }

    /// Combine the measured values of two batches.
    pub fn add(&self, v1: &u64, v2: &u64) -> (r: u64)
        requires
            *v1 + *v2 <= u64::MAX,
        ensures
            r == *v1 + *v2,
    {
        *v1 + *v2
    }

    /// The additive identity for measured values.
    pub fn zero(&self) -> (r: u64)
        ensures
            r == 0,
    {
        0
    }

    /// The unit label for plain measured values.
    pub fn value_unit(&self) -> (r: &'static str)
        ensures
            r@ == "clocks"@,
    {
        "clocks"
    }

    /// The unit label for a throughput kind.
    pub fn throughput_unit(&self, kind: ThroughputKind) -> (r: &'static str)
        ensures
            kind is Bytes ==> r@ == "b/c"@,
            kind is Elements ==> r@ == "elem/c"@,
    {
        match kind {
            ThroughputKind::Bytes => "b/c",
            ThroughputKind::Elements => "elem/c",
        }
    }

    /// Attach the clocks unit to a rendered measured value.
    pub fn format_value(&self, rendered: String) -> (r: String)
        ensures
            r@ == rendered@ + " clocks"@,
    {
        rendered.concat(" clocks")
    }

    /// Attach the unit of the given throughput kind to a rendered rate.
    pub fn format_throughput(&self, kind: ThroughputKind, rendered: String) -> (r: String)
        ensures
            kind is Bytes ==> r@ == rendered@ + " b/c"@,
            kind is Elements ==> r@ == rendered@ + " elem/c"@,
    {
        match kind {
            ThroughputKind::Bytes => rendered.concat(" b/c"),
            ThroughputKind::Elements => rendered.concat(" elem/c"),
        }
    }
}

} // verus!

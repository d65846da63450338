//! Scoped sampling: a region accumulates the durations of completed samples
//! into a running count and sum.

use vstd::prelude::*;

use vstd::string::StringExecFns;

use crate::cpu::CPUInfo;
use crate::instant::{elapsed_between, spec_elapsed};

verus! {

/// The sum of a sequence of sample durations.
pub open spec fn seq_sum(s: Seq<u64>) -> int
    decreases s.len(),
{
    if s.len() == 0 {
        0
    } else {
        seq_sum(s.drop_last()) + s.last()
    }
}

proof fn lemma_seq_sum_push(s: Seq<u64>, v: u64)
    ensures
        seq_sum(s.push(v)) == seq_sum(s) + v,
{
    assert(s.push(v).drop_last() =~= s);
}

/// The recorded history after folding one duration into `before`: the
/// duration extends the history when count and sum still have room, else the
/// history is unchanged.
pub open spec fn folded(before: Seq<u64>, d: u64) -> Seq<u64> {
    if before.len() < u64::MAX && seq_sum(before) + d <= u64::MAX {
        before.push(d)
    } else {
        before
    }
}

/// Folding a duration into a region never shrinks what was recorded: the
/// sample count and the sample sum only increase monotonically over the
/// region's lifetime.
pub proof fn lemma_fold_monotonic(before: Seq<u64>, d: u64)
    ensures
        before.len() <= folded(before, d).len(),
        seq_sum(before) <= seq_sum(folded(before, d)),
{
    if before.len() < u64::MAX && seq_sum(before) + d <= u64::MAX {
        lemma_seq_sum_push(before, d);
    }
}

/// A named region of code whose performance is measured by accumulating
/// cycle-duration samples.
///
/// The running count and sum only grow over the region's lifetime; the
/// average over zero samples is undefined and must be guarded by callers.
pub struct MeasureRegion {
    region_name: String,
    dump_on_drop: bool,
    num_samples: u64,
    sum_samples: u64,
    history: Ghost<Seq<u64>>,
}

/// One measurement sample: a start timestamp taken when the sample is
/// opened, and an end timestamp of zero until the sample is completed.
pub struct MeasureSample {
    start_time: u64,
    end_time: u64,
}

impl MeasureRegion {
    /// The durations of all completed samples, in recording order.
    pub closed spec fn samples(self) -> Seq<u64> {
        self.history@
    }

    /// The region's label.
    pub closed spec fn spec_name(self) -> Seq<char> {
        self.region_name@
    }

    /// Whether a diagnostic line is wanted when the region is released.
    pub closed spec fn spec_dump(self) -> bool {
        self.dump_on_drop
    }

    /// Well-formed: the running count and sum agree with the recorded
    /// history.
    pub closed spec fn wf(self) -> bool {
        self.num_samples == self.samples().len() && self.sum_samples == seq_sum(self.samples())
    }

    /// Create a region with the given label; `dump_on_drop` asks the caller
    /// to log the region's average when the region is released.
    pub fn new_named(region_name: String, dump_on_drop: bool) -> (r: MeasureRegion)
        ensures
            r.wf(),
            r.samples() == Seq::<u64>::empty(),
            r.spec_name() == region_name@,
            r.spec_dump() == dump_on_drop,
    {
        MeasureRegion {
            region_name,
            dump_on_drop,
            num_samples: 0,
            sum_samples: 0,
            history: Ghost(Seq::empty()),
        }
    }

    /// Create a region with a default label and no dump on release.
    pub fn new() -> (r: MeasureRegion)
        ensures
            r.wf(),
            r.samples() == Seq::<u64>::empty(),
            r.spec_name() == "default_name"@,
            r.spec_dump() == false,
    {
        MeasureRegion::new_named(String::from_str("default_name"), false)
    }

    /// Open a new sample against this region. The exclusive borrow keeps a
    /// second sample from racing on the region's counters while this one is
    /// alive; the region itself is not changed until the sample is closed.
    pub fn get_sample(&mut self) -> (s: MeasureSample)
        ensures
            *final(self) == *old(self),
            s.is_open(),
    {
        MeasureSample::new()
    }

    /// Complete `sample` and fold its duration into this region. The end
    /// timestamp is taken now if the sample is still open. Taking the sample
    /// by value makes the fold happen exactly once per sample.
    pub fn close_sample(&mut self, sample: MeasureSample)
        requires
            old(self).wf(),
        ensures
            final(self).wf(),
            final(self).spec_name() == old(self).spec_name(),
            final(self).spec_dump() == old(self).spec_dump(),
            !sample.is_open() ==> final(self).samples() == folded(
                old(self).samples(),
                spec_elapsed(sample.spec_start(), sample.spec_end()),
            ),
            sample.is_open() ==> exists|d: u64|
                final(self).samples() == #[trigger] folded(old(self).samples(), d),
    {
        let value: u64 = if sample.is_unset() {
            elapsed_between(sample.get_start(), CPUInfo::get_time_stamp())
        } else {
            sample.get_value()
        };
        if self.num_samples < u64::MAX && value <= u64::MAX - self.sum_samples {
            self.record_sample(value);
        }
        proof {
            assert(self.samples() == folded(old(self).samples(), value));
        }
    }

    /// Total accumulated time over all completed samples, in raw counter
    /// units: the sum of the recorded durations.
    pub fn get_total_time(&self) -> (r: u64)
        requires
            self.wf(),
        ensures
            r == seq_sum(self.samples()),
    {
        self.sum_samples
    }

    /// The number of completed samples recorded so far.
    pub fn get_sample_count(&self) -> (r: u64)
        requires
            self.wf(),
        ensures
            r == self.samples().len(),
    {
        self.num_samples
    }

    /// The region's label.
    pub fn get_name(&self) -> (r: &String)
        ensures
            r@ == self.spec_name(),
    {
        &self.region_name
    }

    /// Whether a diagnostic line is wanted when the region is released.
    pub fn dumps_on_drop(&self) -> (r: bool)
        ensures
            r == self.spec_dump(),
    {
        self.dump_on_drop
    }

    /// Fold one completed duration into the running count and sum.
    pub fn record_sample(&mut self, sample: u64)
        requires
            old(self).wf(),
            old(self).samples().len() < u64::MAX,
            seq_sum(old(self).samples()) + sample <= u64::MAX,
        ensures
            final(self).wf(),
            final(self).samples() == old(self).samples().push(sample),
            final(self).spec_name() == old(self).spec_name(),
            final(self).spec_dump() == old(self).spec_dump(),
    {
        proof {
            lemma_seq_sum_push(self.history@, sample);
        }
        self.num_samples = self.num_samples + 1;
        self.sum_samples = self.sum_samples + sample;
        self.history = Ghost(self.history@.push(sample));
    }
}

impl MeasureSample {
    /// The counter reading taken when the sample was opened.
    pub closed spec fn spec_start(self) -> u64 {
        self.start_time
    }

    /// The counter reading taken when the sample was completed; zero while
    /// the sample is still open.
    pub closed spec fn spec_end(self) -> u64 {
        self.end_time
    }

    /// A sample is open until an end timestamp is recorded.
    pub open spec fn is_open(self) -> bool {
        self.spec_end() == 0
    }

    /// Open a sample: capture the current counter reading as its start.
    pub fn new() -> (s: MeasureSample)
        ensures
            s.is_open(),
    {
        MeasureSample { start_time: CPUInfo::get_time_stamp(), end_time: 0 }
    }

    /// The start timestamp.
    pub fn get_start(&self) -> (r: u64)
        ensures
            r == self.spec_start(),
    {
        self.start_time
    }

    /// Whether no end timestamp has been recorded yet.
    pub fn is_unset(&self) -> (r: bool)
        ensures
            r == self.is_open(),
    {
        self.end_time == 0
    }

    /// Record the end timestamp now, if none has been recorded yet.
    pub fn stop(&mut self)
        ensures
            final(self).spec_start() == old(self).spec_start(),
            !old(self).is_open() ==> *final(self) == *old(self),
    {
        if self.end_time == 0 {
            self.end_time = CPUInfo::get_time_stamp();
        }
    }

    /// The sample's duration: end timestamp minus start timestamp, zero if
    /// the end timestamp is unset or reads lower than the start.
    pub fn get_value(&self) -> (r: u64)
        ensures
            r == spec_elapsed(self.spec_start(), self.spec_end()),
    {
        elapsed_between(self.start_time, self.end_time)
    }
}

} // verus!

//! Pipeline health counters. Every counter only ever grows: additions saturate
//! at the largest representable value instead of wrapping.
use vstd::prelude::*;

verus! {

/// `v + n`, held at `u64::MAX` instead of wrapping.
pub open spec fn saturating_sum(v: u64, n: u64) -> u64 {
    if v + n > u64::MAX {
        u64::MAX
    } else {
        (v + n) as u64
    }
}

/// A monotone event counter.
#[derive(Debug)]
pub struct Counter {
    value: u64,
}

impl View for Counter {
    type V = u64;

    closed spec fn view(&self) -> u64 {
        self.value
    }
}

impl Counter {
    pub fn new() -> (r: Counter)
        ensures
            r@ == 0,
    {
        Counter { value: 0 }
    }

    /// Add `n`, returning the value held before.
    pub fn fetch_add(&mut self, n: u64) -> (prev: u64)
        ensures
            prev == old(self)@,
            final(self)@ == saturating_sum(old(self)@, n),
    {
        let prev = self.value;
        self.value = self.value.saturating_add(n);
        prev
    }

    /// Count one more event.
    pub fn increment(&mut self)
        ensures
            final(self)@ == saturating_sum(old(self)@, 1),
    {
        self.value = self.value.saturating_add(1);
    }

    pub fn load(&self) -> (r: u64)
        ensures
            r == self@,
    {
        self.value
    }
}

/// The six pipeline counters at one instant.
#[derive(Debug, Clone, Copy, PartialEq, Eq, Structural)]
pub struct MetricsSnapshot {
    pub frames_captured: u64,
    pub frames_deduped_memory: u64,
    pub frames_deduped_db: u64,
    pub frames_stored: u64,
    pub frames_failed: u64,
    pub hash_hits: u64,
}

/// No counter of `a` exceeds the same counter of `b`.
pub open spec fn snapshot_le(a: MetricsSnapshot, b: MetricsSnapshot) -> bool {
    &&& a.frames_captured <= b.frames_captured
    &&& a.frames_deduped_memory <= b.frames_deduped_memory
    &&& a.frames_deduped_db <= b.frames_deduped_db
    &&& a.frames_stored <= b.frames_stored
    &&& a.frames_failed <= b.frames_failed
    &&& a.hash_hits <= b.hash_hits
}

/// Counters for monitoring pipeline health.
#[derive(Debug)]
pub struct PipelineMetrics {
    /// Frames that passed in-memory dedup and were handed to the capture queue.
    pub frames_captured: Counter,
    /// Frames dropped by in-memory dedup.
    pub frames_deduped_memory: Counter,
    /// Frames dropped by the store's near-duplicate check.
    pub frames_deduped_db: Counter,
    /// Frames stored.
    pub frames_stored: Counter,
    /// Frames whose capture or storage failed.
    pub frames_failed: Counter,
    /// Comparisons settled by the content-hash short-circuit.
    pub hash_hits: Counter,
}

impl View for PipelineMetrics {
    type V = MetricsSnapshot;

    open spec fn view(&self) -> MetricsSnapshot {
        MetricsSnapshot {
            frames_captured: self.frames_captured@,
            frames_deduped_memory: self.frames_deduped_memory@,
            frames_deduped_db: self.frames_deduped_db@,
            frames_stored: self.frames_stored@,
            frames_failed: self.frames_failed@,
            hash_hits: self.hash_hits@,
        }
    }
}

/// All counters at zero.
pub open spec fn zero_snapshot() -> MetricsSnapshot {
    MetricsSnapshot {
        frames_captured: 0,
        frames_deduped_memory: 0,
        frames_deduped_db: 0,
        frames_stored: 0,
        frames_failed: 0,
        hash_hits: 0,
    }
}

impl PipelineMetrics {
    pub fn new() -> (r: PipelineMetrics)
        ensures
            r@ == zero_snapshot(),
    {
        PipelineMetrics {
            frames_captured: Counter::new(),
            frames_deduped_memory: Counter::new(),
            frames_deduped_db: Counter::new(),
            frames_stored: Counter::new(),
            frames_failed: Counter::new(),
            hash_hits: Counter::new(),
        }
    }

    /// The current value of every counter, for the periodic summary line.
    pub fn log_summary(&self) -> (r: MetricsSnapshot)
        ensures
            r == self@,
    {
        MetricsSnapshot {
            frames_captured: self.frames_captured.load(),
            frames_deduped_memory: self.frames_deduped_memory.load(),
            frames_deduped_db: self.frames_deduped_db.load(),
            frames_stored: self.frames_stored.load(),
            frames_failed: self.frames_failed.load(),
            hash_hits: self.hash_hits.load(),
        }
    }
}

/// A saturating addition never lowers a counter.
pub proof fn lemma_counter_monotone(v: u64, n: u64)
    ensures
        v <= saturating_sum(v, n),
        n > 0 && v < u64::MAX ==> v < saturating_sum(v, n),
{
}

/// Counters that never decrease step by step never decrease overall.
pub proof fn lemma_snapshot_le_transitive(a: MetricsSnapshot, b: MetricsSnapshot, c: MetricsSnapshot)
    requires
        snapshot_le(a, b),
        snapshot_le(b, c),
    ensures
        snapshot_le(a, c),
{
}

} // verus!

//! Decisions of the per-monitor capture stage: count failed snapshots, drop a
//! frame that differs too little from the previous one, hash and emit the
//! rest, and stop once the capture queue is closed.
//!
//! The frame difference is a score in [0, 1] that the caller computes from the
//! previous frame and the new one; it is handed over in millionths.
use vstd::prelude::*;

use crate::dedup::{phash64, phash_of};
use crate::metrics::{saturating_sum, snapshot_le, MetricsSnapshot, PipelineMetrics};
use crate::pipeline::CaptureMessage;
use crate::raster::{same_raster, Raster};

verus! {

/// A frame differing from the previous one by less than this (millionths,
/// i.e. 0.006) is a duplicate and is dropped by the capture stage.
pub const MEMORY_DEDUP_THRESHOLD_PPM: u64 = 6000;

/// The same threshold for the hash-and-histogram comparison policy (0.01).
pub const HISTOGRAM_DEDUP_THRESHOLD_PPM: u64 = 10000;

/// Largest frame difference, in millionths (1.0).
pub const MAX_DIFFERENCE_PPM: u64 = 1000000;

/// Whether a difference score marks a duplicate under `threshold_ppm`; a
/// comparison that failed (`None`) never does.
pub open spec fn is_duplicate_score(difference_ppm: Option<u64>, threshold_ppm: u64) -> bool {
    match difference_ppm {
        Some(d) => d < threshold_ppm,
        None => false,
    }
}

/// Whether a difference score marks a duplicate under `threshold_ppm`.
pub fn below_threshold(difference_ppm: Option<u64>, threshold_ppm: u64) -> (r: bool)
    ensures
        r == is_duplicate_score(difference_ppm, threshold_ppm),
{
    match difference_ppm {
        Some(d) => d < threshold_ppm,
        None => false,
    }
}

pub open spec fn add_captured(m: MetricsSnapshot) -> MetricsSnapshot {
    MetricsSnapshot { frames_captured: saturating_sum(m.frames_captured, 1), ..m }
}

pub open spec fn add_deduped_memory(m: MetricsSnapshot) -> MetricsSnapshot {
    MetricsSnapshot { frames_deduped_memory: saturating_sum(m.frames_deduped_memory, 1), ..m }
}

pub open spec fn add_capture_failure(m: MetricsSnapshot) -> MetricsSnapshot {
    MetricsSnapshot { frames_failed: saturating_sum(m.frames_failed, 1), ..m }
}

/// Result of offering a frame to the bounded capture queue without waiting.
#[derive(Debug, Clone, Copy, PartialEq, Eq, Structural)]
pub enum SendOutcome {
    /// The frame is queued.
    Sent,
    /// The queue is full: this, the newest frame, is dropped.
    Full,
    /// The queue is closed.
    Closed,
}

/// The capture stage goes on unless the queue is closed.
pub fn continues_after_send(outcome: SendOutcome) -> (r: bool)
    ensures
        r <==> outcome != SendOutcome::Closed,
{
    match outcome {
        SendOutcome::Closed => false,
        _ => true,
    }
}

/// State of one monitor's capture stage: the frame later ones are compared with.
#[derive(Debug)]
pub struct CaptureStage {
    monitor_id: u32,
    previous: Option<Raster>,
}

impl CaptureStage {
    pub closed spec fn spec_monitor_id(&self) -> u32 {
        self.monitor_id
    }

    pub closed spec fn spec_previous(&self) -> Option<Raster> {
        self.previous
    }

    /// A stage that has not seen a frame yet.
    pub fn new(monitor_id: u32) -> (r: CaptureStage)
        ensures
            r.spec_monitor_id() == monitor_id,
            r.spec_previous() is None,
    {
        CaptureStage { monitor_id, previous: None }
    }

    pub fn monitor_id(&self) -> (r: u32)
        ensures
            r == self.spec_monitor_id(),
    {
        self.monitor_id
    }

    /// The frame a new one is compared with, if any.
    pub fn previous(&self) -> (r: Option<&Raster>)
        ensures
            r is Some <==> self.spec_previous() is Some,
            r matches Some(p) ==> *p == self.spec_previous()->0,
    {
        match &self.previous {
            Some(p) => Some(p),
            None => None,
        }
    }

    /// A snapshot failed: count it and wait for the next tick.
    pub fn on_snapshot_failed(&self, metrics: &mut PipelineMetrics)
        ensures
            final(metrics)@ == add_capture_failure(old(metrics)@),
            snapshot_le(old(metrics)@, final(metrics)@),
    {
        metrics.frames_failed.increment();
    }

    /// A snapshot arrived, with its difference from the previous frame when one
    /// was computed. A frame with a previous frame and a difference below
    /// `MEMORY_DEDUP_THRESHOLD_PPM` is dropped and counted; any other frame is
    /// hashed, counted as captured, becomes the previous frame, and is returned as
    /// the message to offer to the capture queue.
    pub fn on_frame(
        &mut self,
        raw: Raster,
        difference_ppm: Option<u64>,
        timestamp_millis: u64,
        metrics: &mut PipelineMetrics,
    ) -> (r: Option<CaptureMessage>)
        ensures
            final(self).spec_monitor_id() == old(self).spec_monitor_id(),
            snapshot_le(old(metrics)@, final(metrics)@),
            ({
                let duplicate = old(self).spec_previous() is Some && is_duplicate_score(
                    difference_ppm,
                    MEMORY_DEDUP_THRESHOLD_PPM,
                );
                if duplicate {
                    &&& r is None
                    &&& final(self).spec_previous() == old(self).spec_previous()
                    &&& final(metrics)@ == add_deduped_memory(old(metrics)@)
                } else {
                    &&& r matches Some(msg) && same_raster(msg.image, raw) && msg.phash == phash_of(
                        raw,
                    ) && msg.timestamp_millis == timestamp_millis && msg.monitor_id
                        == old(self).spec_monitor_id()
                    &&& final(self).spec_previous() == Some(raw)
                    &&& final(metrics)@ == add_captured(old(metrics)@)
                }
            }),
    {
        if self.previous.is_some() && below_threshold(difference_ppm, MEMORY_DEDUP_THRESHOLD_PPM) {
            metrics.frames_deduped_memory.increment();
            return None;
        }
        let phash = phash64(&raw);
        metrics.frames_captured.increment();
        let msg = CaptureMessage {
            image: raw.copied(),
            phash,
            timestamp_millis,
            monitor_id: self.monitor_id,
        };
        self.previous = Some(raw);
        Some(msg)
    }
}

} // verus!

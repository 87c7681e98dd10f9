//! Decisions of the single-monitor continuous capture loop: give up after too
//! many consecutive failed captures, skip frames that barely changed unless the
//! last kept frame is too old, and retry a failed snapshot a bounded number of
//! times.
use vstd::prelude::*;

use crate::capture::HISTOGRAM_DEDUP_THRESHOLD_PPM;
use crate::metrics::saturating_sum;

verus! {

/// Consecutive failed captures tolerated before the loop gives up.
pub const MAX_CONSECUTIVE_FAILURES: u32 = 10;

/// Snapshot attempts per capture.
pub const CAPTURE_ATTEMPTS: u32 = 3;

/// A frame is kept regardless of its difference once the last kept frame is
/// this old (milliseconds).
pub const MAX_SKIP_MILLIS: u64 = 10000;

/// What to do after a failed capture.
#[derive(Debug, Clone, Copy, PartialEq, Eq, Structural)]
pub enum FailureDecision {
    /// Pause, then capture again.
    RetryAfterPause,
    /// Too many failures in a row: stop with an error.
    GiveUp,
}

/// What to do with a captured frame.
#[derive(Debug, Clone, Copy, PartialEq, Eq, Structural)]
pub enum FrameDecision {
    Skip,
    /// Keep it; `forced` when only its age made it kept.
    Keep { forced: bool },
}

/// State of the continuous capture loop.
#[derive(Debug, Clone, Copy, PartialEq, Eq, Structural)]
pub struct ContinuousCapture {
    pub frame_counter: u64,
    pub consecutive_failures: u32,
    pub last_capture_millis: u64,
}

/// Milliseconds from `since` to `now`, 0 if `now` is earlier.
pub open spec fn elapsed(since: u64, now: u64) -> u64 {
    if now >= since {
        (now - since) as u64
    } else {
        0
    }
}

impl ContinuousCapture {
    /// A loop started at `start_millis`, as if a frame had just been kept.
    pub fn new(start_millis: u64) -> (r: ContinuousCapture)
        ensures
            r.frame_counter == 0,
            r.consecutive_failures == 0,
            r.last_capture_millis == start_millis,
    {
        ContinuousCapture { frame_counter: 0, consecutive_failures: 0, last_capture_millis: start_millis }
    }

    /// A capture failed: count it, and give up once more than
    /// `MAX_CONSECUTIVE_FAILURES` failed in a row.
    pub fn on_capture_failed(&mut self) -> (r: FailureDecision)
        ensures
            final(self).consecutive_failures == (if old(self).consecutive_failures == u32::MAX {
                u32::MAX
            } else {
                (old(self).consecutive_failures + 1) as u32
            }),
            final(self).frame_counter == old(self).frame_counter,
            final(self).last_capture_millis == old(self).last_capture_millis,
            r == FailureDecision::GiveUp <==> final(self).consecutive_failures > MAX_CONSECUTIVE_FAILURES,
    {
        self.consecutive_failures = self.consecutive_failures.saturating_add(1);
        if self.consecutive_failures > MAX_CONSECUTIVE_FAILURES {
            FailureDecision::GiveUp
        } else {
            FailureDecision::RetryAfterPause
        }
    }

    /// A frame was captured at `now_millis` with the given difference from the
    /// previous one (millionths). It is skipped when the difference is below
    /// `HISTOGRAM_DEDUP_THRESHOLD_PPM` and the last kept frame is younger than
    /// `MAX_SKIP_MILLIS`; otherwise it is kept and becomes the last kept frame.
    pub fn on_frame(&mut self, difference_ppm: u64, now_millis: u64) -> (r: FrameDecision)
        ensures
            final(self).consecutive_failures == 0,
            final(self).frame_counter == saturating_sum(old(self).frame_counter, 1),
            ({
                let forced = elapsed(old(self).last_capture_millis, now_millis) >= MAX_SKIP_MILLIS;
                if difference_ppm < HISTOGRAM_DEDUP_THRESHOLD_PPM && !forced {
                    r == FrameDecision::Skip && final(self).last_capture_millis == old(
                        self,
                    ).last_capture_millis
                } else {
                    r == (FrameDecision::Keep { forced }) && final(self).last_capture_millis
                        == now_millis
                }
            }),
    {
        self.consecutive_failures = 0;
        self.frame_counter = self.frame_counter.saturating_add(1);
        let age = if now_millis >= self.last_capture_millis {
            now_millis - self.last_capture_millis
        } else {
            0
        };
        let forced = age >= MAX_SKIP_MILLIS;
        if difference_ppm < HISTOGRAM_DEDUP_THRESHOLD_PPM && !forced {
            FrameDecision::Skip
        } else {
            self.last_capture_millis = now_millis;
            FrameDecision::Keep { forced }
        }
    }
}

/// After `attempts_made` failed snapshot attempts, whether to try again.
pub fn should_retry_capture(attempts_made: u32) -> (r: bool)
    ensures
        r <==> attempts_made < CAPTURE_ATTEMPTS,
{
    attempts_made < CAPTURE_ATTEMPTS
}

} // verus!

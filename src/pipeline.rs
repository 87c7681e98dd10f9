//! Messages, settings and small decisions of the capture -> forward -> store
//! pipeline.
use vstd::prelude::*;

use crate::raster::Raster;
use crate::storage_task::EnvelopeMeta;

verus! {

/// Message sent from a capture stage to the forwarder.
#[derive(Debug)]
pub struct CaptureMessage {
    /// The captured image.
    pub image: Raster,
    /// Perceptual hash of the image.
    pub phash: u64,
    /// When the frame was captured, in milliseconds of the process's monotonic clock.
    pub timestamp_millis: u64,
    /// Which monitor captured this frame.
    pub monitor_id: u32,
}

/// Message sent from the forwarder to the storage stage.
#[derive(Debug)]
pub struct StorageMessage {
    /// The captured image.
    pub image: Raster,
    /// Perceptual hash of the image, the same 64 bits read as signed.
    pub phash: i64,
    /// Wall-clock capture instant, Unix milliseconds (UTC), stamped at forwarding.
    pub captured_at_millis: i64,
    /// Which monitor captured this frame.
    pub monitor_id: u32,
}

/// Shutdown signal for graceful termination.
#[derive(Debug, Clone, Copy, PartialEq, Eq, Structural)]
pub struct ShutdownSignal;

/// Turn a capture message into a storage envelope, stamping the wall-clock
/// instant at which it is forwarded and keeping the hash's bit pattern.
pub fn to_storage_message(msg: CaptureMessage, captured_at_millis: i64) -> (r: StorageMessage)
    ensures
        r.image == msg.image,
        r.phash == msg.phash as i64,
        r.phash as u64 == msg.phash,
        r.captured_at_millis == captured_at_millis,
        r.monitor_id == msg.monitor_id,
{
    let bits = msg.phash;
    let phash = bits as i64;
    assert((bits as i64) as u64 == bits) by (bit_vector);
    StorageMessage { image: msg.image, phash, captured_at_millis, monitor_id: msg.monitor_id }
}

impl StorageMessage {
    /// What the storage stage decides on.
    pub fn meta(&self) -> (r: EnvelopeMeta)
        ensures
            r.phash == self.phash,
            r.captured_at_millis == self.captured_at_millis,
            r.monitor_id == self.monitor_id,
    {
        EnvelopeMeta {
            phash: self.phash,
            captured_at_millis: self.captured_at_millis,
            monitor_id: self.monitor_id,
        }
    }
}

/// How one round of the forwarder ended.
#[derive(Debug, Clone, Copy, PartialEq, Eq, Structural)]
pub enum ForwardOutcome {
    /// A message was taken from the capture queue and sent on.
    Forwarded,
    /// The capture queue is closed.
    UpstreamClosed,
    /// The storage queue is closed.
    DownstreamClosed,
    /// The shutdown signal arrived.
    ShutdownReceived,
}

/// The forwarder goes on only after forwarding; every other outcome ends it.
pub fn forwarder_continues(outcome: ForwardOutcome) -> (r: bool)
    ensures
        r <==> outcome == ForwardOutcome::Forwarded,
{
    match outcome {
        ForwardOutcome::Forwarded => true,
        _ => false,
    }
}

/// Configuration for the capture pipeline.
#[derive(Debug, Clone, Copy, PartialEq, Eq, Structural)]
pub struct PipelineConfig {
    /// Capacity of the capture queue (capture -> forwarder).
    pub capture_channel_capacity: usize,
    /// Capacity of the storage queue (forwarder -> storage).
    pub storage_channel_capacity: usize,
    /// Interval between metrics summaries.
    pub metrics_log_interval_secs: u64,
    /// Warn when a queue is fuller than this many thousandths of its capacity.
    pub channel_warn_permille: u32,
}

pub const DEFAULT_CAPTURE_CHANNEL_CAPACITY: usize = 64;

pub const DEFAULT_STORAGE_CHANNEL_CAPACITY: usize = 32;

pub const DEFAULT_METRICS_LOG_INTERVAL_SECS: u64 = 60;

pub const DEFAULT_CHANNEL_WARN_PERMILLE: u32 = 800;

impl Default for PipelineConfig {
    fn default() -> (r: PipelineConfig)
        ensures
            r.capture_channel_capacity == 64,
            r.storage_channel_capacity == 32,
            r.metrics_log_interval_secs == 60,
            r.channel_warn_permille == 800,
    {
        PipelineConfig {
            capture_channel_capacity: DEFAULT_CAPTURE_CHANNEL_CAPACITY,
            storage_channel_capacity: DEFAULT_STORAGE_CHANNEL_CAPACITY,
            metrics_log_interval_secs: DEFAULT_METRICS_LOG_INTERVAL_SECS,
            channel_warn_permille: DEFAULT_CHANNEL_WARN_PERMILLE,
        }
    }
}

/// Slots in use of a queue of `capacity` slots of which `free` are free.
pub open spec fn queue_used(capacity: usize, free: usize) -> int {
    if free >= capacity {
        0
    } else {
        capacity - free
    }
}

/// Whether a queue with `free` of `capacity` slots free is fuller than
/// `warn_permille` thousandths of its capacity.
pub fn queue_needs_warning(capacity: usize, free: usize, warn_permille: u32) -> (r: bool)
    ensures
        r <==> queue_used(capacity, free) * 1000 > capacity * warn_permille,
{
    let used: u128 = if free >= capacity {
        0
    } else {
        (capacity - free) as u128
    };
    assert(used * 1000 <= u128::MAX && (capacity as u128) * (warn_permille as u128) <= u128::MAX)
        by (nonlinear_arith)
        requires
            used <= capacity,
            capacity <= usize::MAX,
            usize::MAX <= u64::MAX,
            warn_permille <= u32::MAX,
    ;
    used * 1000 > (capacity as u128) * (warn_permille as u128)
}

} // verus!

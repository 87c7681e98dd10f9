use std::collections::VecDeque;

use image_compare::{Algorithm, Metric};
use recall::capture::{continues_after_send, CaptureStage, SendOutcome};
use recall::dedup::{hash_prefix, phash64};
use recall::images::{cleanup_cutoff, date_dir_name, encode_jpeg, plan_cleanup, DirEntryInfo};
use recall::metrics::PipelineMetrics;
use recall::pipeline::{
    forwarder_continues, queue_needs_warning, to_storage_message, CaptureMessage, ForwardOutcome,
    PipelineConfig, StorageMessage,
};
use recall::raster::Raster;
use recall::storage_task::{DuplicateCheck, StorageAction, StorageEvent, StorageStage};
use recall::store::{duplicate_query, find_duplicate};

#[test]
fn test_pipeline_config_defaults() {
    let config = PipelineConfig::default();
    assert_eq!(config.capture_channel_capacity, 64);
    assert_eq!(config.storage_channel_capacity, 32);
    assert_eq!(config.metrics_log_interval_secs, 60);
}

#[test]
fn test_metrics_increment() {
    let mut metrics = PipelineMetrics::new();
    metrics.frames_captured.fetch_add(10);
    assert_eq!(metrics.frames_captured.load(), 10);
}

#[test]
fn counters_saturate_instead_of_wrapping() {
    let mut metrics = PipelineMetrics::new();
    assert_eq!(metrics.frames_failed.fetch_add(u64::MAX - 1), 0);
    metrics.frames_failed.increment();
    metrics.frames_failed.increment();
    assert_eq!(metrics.frames_failed.load(), u64::MAX);
    let s = metrics.log_summary();
    assert_eq!(s.frames_failed, u64::MAX);
    assert_eq!(s.frames_captured, 0);
}

// ---------------------------------------------------------------------------
// In-memory collaborators for end-to-end runs
// ---------------------------------------------------------------------------

fn solid(w: u32, h: u32, v: u8) -> Raster {
    Raster::filled(w, h, [v, v, v, 255])
}

fn halves(w: u32, h: u32, inverted: bool) -> Raster {
    let mut bytes = Vec::new();
    for _y in 0..h {
        for x in 0..w {
            let v = if (x < w / 2) != inverted { 0u8 } else { 255u8 };
            bytes.extend_from_slice(&[v, v, v, 255]);
        }
    }
    Raster::from_rgba(w, h, bytes).unwrap()
}

fn gray(r: &Raster) -> image::GrayImage {
    let rgba = image::RgbaImage::from_raw(r.width(), r.height(), r.as_bytes().clone()).unwrap();
    image::DynamicImage::ImageRgba8(rgba).to_luma8()
}

/// (histogram distance + (1 - SSIM)) / 2, in millionths.
fn frame_difference_ppm(a: &Raster, b: &Raster) -> Option<u64> {
    let (ga, gb) = (gray(a), gray(b));
    let hist = image_compare::gray_similarity_histogram(Metric::Hellinger, &ga, &gb).ok()?;
    let ssim = image_compare::gray_similarity_structure(&Algorithm::MSSIMSimple, &ga, &gb).ok()?;
    let diff = (hist + (1.0 - ssim.score)) / 2.0;
    Some((diff.max(0.0) * 1_000_000.0) as u64)
}

/// Stored rows: (id, phash, captured_at_millis); images written.
#[derive(Default)]
struct MemoryStore {
    rows: Vec<(u128, i64, i64)>,
    images: usize,
}

impl MemoryStore {
    fn is_duplicate(&self, phash: i64, window_secs: u64, now_millis: i64) -> DuplicateCheck {
        let q = duplicate_query(phash, window_secs, now_millis);
        let candidates: Vec<(u128, i64)> = self
            .rows
            .iter()
            .filter(|r| hash_prefix(r.1) == q.prefix && r.2 >= q.since_millis && r.2 <= now_millis)
            .map(|r| (r.0, r.1))
            .collect();
        match find_duplicate(phash, &candidates) {
            Some(id) => DuplicateCheck::Found(id),
            None => DuplicateCheck::NotFound,
        }
    }
}

/// Runs the storage stage over `queue` until it exits; `shutdown` is delivered
/// at the first wait for an envelope.
fn run_storage(
    stage: &mut StorageStage,
    metrics: &mut PipelineMetrics,
    queue: &mut VecDeque<StorageMessage>,
    store: &mut MemoryStore,
    shutdown: bool,
) {
    let mut action = StorageAction::Receive;
    let mut current: Option<StorageMessage> = None;
    let mut shutdown_pending = shutdown;
    loop {
        let ev = match action {
            StorageAction::Receive => {
                if shutdown_pending {
                    shutdown_pending = false;
                    StorageEvent::Shutdown
                } else {
                    match queue.pop_front() {
                        Some(m) => {
                            let meta = m.meta();
                            current = Some(m);
                            StorageEvent::Received(meta)
                        }
                        None => StorageEvent::QueueEmpty,
                    }
                }
            }
            StorageAction::DrainNext => match queue.pop_front() {
                Some(m) => {
                    let meta = m.meta();
                    current = Some(m);
                    StorageEvent::Received(meta)
                }
                None => StorageEvent::QueueEmpty,
            },
            StorageAction::CheckDuplicate { phash, window_secs } => {
                let now = current.as_ref().unwrap().captured_at_millis;
                StorageEvent::DuplicateChecked(store.is_duplicate(phash, window_secs, now))
            }
            StorageAction::SaveJpeg { quality, .. } => {
                match encode_jpeg(&current.as_ref().unwrap().image, quality) {
                    Some(bytes) => {
                        store.images += 1;
                        StorageEvent::Saved(bytes.len() as u64)
                    }
                    None => StorageEvent::SaveFailed,
                }
            }
            StorageAction::InsertFrame { captured_at_millis, phash, .. } => {
                let id = store.rows.len() as u128 + 1;
                store.rows.push((id, phash, captured_at_millis));
                StorageEvent::Inserted(id)
            }
            StorageAction::Exit => break,
        };
        action = stage.step(ev, metrics);
    }
}

/// Captures `frames` one second apart (`spacing_millis`) through one capture
/// stage, forwarding every emitted frame, then stores them.
fn run_scene(frames: Vec<Raster>, spacing_millis: i64) -> (PipelineMetrics, MemoryStore) {
    let mut metrics = PipelineMetrics::new();
    let mut capture = CaptureStage::new(1);
    let mut queue: VecDeque<StorageMessage> = VecDeque::new();
    let start: i64 = 1_700_000_000_000;
    for (i, raw) in frames.into_iter().enumerate() {
        let score = capture.previous().and_then(|prev| frame_difference_ppm(prev, &raw));
        if let Some(msg) = capture.on_frame(raw, score, i as u64 * 1000, &mut metrics) {
            queue.push_back(to_storage_message(msg, start + i as i64 * spacing_millis));
        }
    }
    let mut store = MemoryStore::default();
    let mut stage = StorageStage::new(85, 10);
    run_storage(&mut stage, &mut metrics, &mut queue, &mut store, false);
    (metrics, store)
}

#[test]
fn no_change_scene_stores_one_frame() {
    let frames: Vec<Raster> = (0..10).map(|_| solid(64, 48, 128)).collect();
    let (metrics, store) = run_scene(frames, 1000);
    assert_eq!(store.rows.len(), 1);
    assert_eq!(store.images, 1);
    assert_eq!(metrics.frames_deduped_memory.load(), 9);
    assert_eq!(metrics.frames_deduped_db.load(), 0);
    assert_eq!(metrics.frames_stored.load(), 1);
}

#[test]
fn alternating_scene_stores_every_frame() {
    // Frames alternate between two inverted black/white patterns whose hashes
    // differ in all 64 bits; they are forwarded further apart than the dedup
    // window, so no stored frame is a candidate for a later one.
    let frames: Vec<Raster> = (0..10).map(|i| halves(64, 48, i % 2 == 1)).collect();
    let (metrics, store) = run_scene(frames, 15_000);
    assert_eq!(store.rows.len(), 10);
    assert_eq!(store.images, 10);
    assert_eq!(metrics.frames_deduped_memory.load(), 0);
    assert_eq!(metrics.frames_deduped_db.load(), 0);
    assert_eq!(metrics.frames_captured.load(), 10);
}

#[test]
fn alternating_scene_within_window_hits_db_dedup() {
    // One second apart, every pattern reappears inside the 10 s window.
    let frames: Vec<Raster> = (0..10).map(|i| halves(64, 48, i % 2 == 1)).collect();
    let (metrics, store) = run_scene(frames, 1000);
    assert_eq!(metrics.frames_deduped_memory.load(), 0);
    assert_eq!(store.rows.len(), 2);
    assert_eq!(metrics.frames_deduped_db.load(), 8);
}

#[test]
fn near_duplicate_burst_stores_one_frame() {
    let mut metrics = PipelineMetrics::new();
    let mut queue: VecDeque<StorageMessage> = VecDeque::new();
    let h: u64 = 0x0123_4567_89AB_CDEF;
    for (i, phash) in [h, h ^ 0b1011].iter().enumerate() {
        let msg = CaptureMessage { image: solid(16, 16, 7), phash: *phash, timestamp_millis: i as u64, monitor_id: 2 };
        queue.push_back(to_storage_message(msg, 1_700_000_000_000 + i as i64 * 1000));
    }
    let mut store = MemoryStore::default();
    let mut stage = StorageStage::new(85, 10);
    run_storage(&mut stage, &mut metrics, &mut queue, &mut store, false);
    assert_eq!(store.rows.len(), 1);
    assert_eq!(metrics.frames_deduped_db.load(), 1);
    assert_eq!(metrics.frames_stored.load(), 1);
}

#[test]
fn graceful_shutdown_drains_queue() {
    let mut metrics = PipelineMetrics::new();
    let mut queue: VecDeque<StorageMessage> = VecDeque::new();
    for i in 0..3u64 {
        // Identical hashes: the drain skips the duplicate check, so all are kept.
        let msg = CaptureMessage { image: solid(16, 16, 40), phash: 99, timestamp_millis: i, monitor_id: 1 };
        queue.push_back(to_storage_message(msg, 1_700_000_000_000 + i as i64));
    }
    let mut store = MemoryStore::default();
    let mut stage = StorageStage::new(85, 10);
    run_storage(&mut stage, &mut metrics, &mut queue, &mut store, true);
    assert_eq!(metrics.frames_stored.load(), 3);
    assert_eq!(store.rows.len(), 3);
    assert_eq!(metrics.frames_deduped_db.load(), 0);
    assert!(queue.is_empty());
}

#[test]
fn cleanup_scenario_removes_old_directory_only() {
    let now = chrono::Utc::now().timestamp_millis();
    let today = date_dir_name(now).unwrap();
    let entries = vec![
        DirEntryInfo { name: "2020-01-01".to_string(), is_dir: true, file_count: 2 },
        DirEntryInfo { name: today, is_dir: true, file_count: 2 },
    ];
    let cutoff = cleanup_cutoff(now, 1).unwrap();
    let plan = plan_cleanup(&entries, &cutoff);
    assert_eq!(plan.files_removed, 2);
    assert_eq!(plan.remove, vec![0]);
}

#[test]
fn back_pressure_drops_the_newest_frame() {
    let capacity = 2;
    let mut queue: VecDeque<CaptureMessage> = VecDeque::new();
    let mut metrics = PipelineMetrics::new();
    let mut capture = CaptureStage::new(3);
    let mut outcomes = Vec::new();
    for i in 0..3u64 {
        let raw = solid(32, 32, (i * 100) as u8);
        // Every frame differs from the previous one.
        let score = capture.previous().map(|_| 1_000_000);
        let msg = capture.on_frame(raw, score, i, &mut metrics).unwrap();
        let outcome = if queue.len() < capacity {
            queue.push_back(msg);
            SendOutcome::Sent
        } else {
            SendOutcome::Full
        };
        assert!(continues_after_send(outcome));
        outcomes.push(outcome);
    }
    assert_eq!(outcomes, vec![SendOutcome::Sent, SendOutcome::Sent, SendOutcome::Full]);
    assert!(queue.len() <= 2);
    assert!(metrics.frames_captured.load() >= 3);
    let kept: Vec<u64> = queue.iter().map(|m| m.timestamp_millis).collect();
    assert_eq!(kept, vec![0, 1]);
    // The dropped frame is still the comparison base.
    assert_eq!(capture.previous().unwrap().as_bytes()[0], 200);
    assert!(!continues_after_send(SendOutcome::Closed));
}

#[test]
fn capture_stage_counts_failures_and_duplicates() {
    let mut metrics = PipelineMetrics::new();
    let mut capture = CaptureStage::new(9);
    capture.on_snapshot_failed(&mut metrics);
    assert_eq!(metrics.frames_failed.load(), 1);
    // Without a previous frame the score is ignored.
    let first = capture.on_frame(solid(8, 8, 1), Some(0), 5, &mut metrics).unwrap();
    assert_eq!(first.monitor_id, 9);
    assert_eq!(first.timestamp_millis, 5);
    assert_eq!(first.phash, phash64(&solid(8, 8, 1)));
    // Below 0.006: dropped.
    assert!(capture.on_frame(solid(8, 8, 1), Some(5_999), 6, &mut metrics).is_none());
    // At the threshold, or when scoring failed: kept.
    assert!(capture.on_frame(solid(8, 8, 2), Some(6_000), 7, &mut metrics).is_some());
    assert!(capture.on_frame(solid(8, 8, 3), None, 8, &mut metrics).is_some());
    assert_eq!(metrics.frames_deduped_memory.load(), 1);
    assert_eq!(metrics.frames_captured.load(), 3);
}

#[test]
fn forwarding_keeps_hash_bits() {
    let msg = CaptureMessage { image: solid(2, 2, 0), phash: u64::MAX, timestamp_millis: 1, monitor_id: 4 };
    let env = to_storage_message(msg, 77);
    assert_eq!(env.phash, -1);
    assert_eq!(env.captured_at_millis, 77);
    assert_eq!(env.monitor_id, 4);
    assert!(forwarder_continues(ForwardOutcome::Forwarded));
    assert!(!forwarder_continues(ForwardOutcome::UpstreamClosed));
    assert!(!forwarder_continues(ForwardOutcome::DownstreamClosed));
    assert!(!forwarder_continues(ForwardOutcome::ShutdownReceived));
}

#[test]
fn queue_warning_threshold() {
    // 64 slots, warn above 0.8: 52 used warns, 51 does not.
    assert!(queue_needs_warning(64, 12, 800));
    assert!(!queue_needs_warning(64, 13, 800));
    assert!(!queue_needs_warning(64, 64, 800));
    assert!(!queue_needs_warning(0, 0, 800));
}

#[test]
fn storage_failures_are_counted() {
    let mut metrics = PipelineMetrics::new();
    let mut stage = StorageStage::new(85, 10);
    let meta = recall::storage_task::EnvelopeMeta { phash: 1, captured_at_millis: 2, monitor_id: 3 };
    assert_eq!(stage.step(StorageEvent::Received(meta), &mut metrics), StorageAction::CheckDuplicate { phash: 1, window_secs: 10 });
    // A failed check proceeds to the write.
    assert_eq!(
        stage.step(StorageEvent::DuplicateChecked(DuplicateCheck::Failed), &mut metrics),
        StorageAction::SaveJpeg { captured_at_millis: 2, quality: 85 }
    );
    assert_eq!(stage.step(StorageEvent::SaveFailed, &mut metrics), StorageAction::Receive);
    assert_eq!(metrics.frames_failed.load(), 1);
    stage.step(StorageEvent::Received(meta), &mut metrics);
    stage.step(StorageEvent::DuplicateChecked(DuplicateCheck::NotFound), &mut metrics);
    assert_eq!(
        stage.step(StorageEvent::Saved(4096), &mut metrics),
        StorageAction::InsertFrame { captured_at_millis: 2, image_size_bytes: 4096, phash: 1 }
    );
    assert_eq!(stage.step(StorageEvent::InsertFailed, &mut metrics), StorageAction::Receive);
    assert_eq!(metrics.frames_failed.load(), 2);
    // An event the stage does not wait on repeats the pending action.
    assert_eq!(stage.step(StorageEvent::Inserted(5), &mut metrics), StorageAction::Receive);
    assert_eq!(metrics.frames_stored.load(), 0);
    assert_eq!(stage.step(StorageEvent::QueueEmpty, &mut metrics), StorageAction::Exit);
}

#[test]
fn slow_store_bounds_queued_frames() {
    // Capture at 5 Hz for 5 s (ticks of 200 ms) into a capture queue of 4 and a
    // storage queue of 2, with a store that takes 2 s per frame.
    let (cap_q1, cap_q2) = (4usize, 2usize);
    let mut metrics = PipelineMetrics::new();
    let mut capture = CaptureStage::new(1);
    let mut q1: VecDeque<CaptureMessage> = VecDeque::new();
    let mut q2: VecDeque<StorageMessage> = VecDeque::new();
    let mut stage = StorageStage::new(85, 10);
    let mut store = MemoryStore::default();
    let mut full_warnings = 0;
    let mut busy_until: u64 = 0;
    let mut in_store: Option<StorageMessage> = None;
    let mut peak = 0;
    for tick in 0..25u64 {
        let now = tick * 200;
        let raw = solid(16, 16, (tick * 10) as u8);
        let score = capture.previous().map(|_| 1_000_000);
        if let Some(msg) = capture.on_frame(raw, score, now, &mut metrics) {
            if q1.len() < cap_q1 {
                q1.push_back(msg);
            } else {
                full_warnings += 1;
            }
        }
        // The forwarder blocks while the storage queue is full.
        while q2.len() < cap_q2 {
            match q1.pop_front() {
                Some(m) => q2.push_back(to_storage_message(m, 1_700_000_000_000 + now as i64)),
                None => break,
            }
        }
        // The store finishes one frame every 2 s.
        if now >= busy_until {
            if let Some(done) = in_store.take() {
                let mut one: VecDeque<StorageMessage> = VecDeque::new();
                one.push_back(done);
                stage = StorageStage::new(85, 10);
                run_storage(&mut stage, &mut metrics, &mut one, &mut store, false);
            }
            if let Some(next) = q2.pop_front() {
                in_store = Some(next);
                busy_until = now + 2000;
            }
        }
        peak = peak.max(q1.len() + q2.len());
    }
    assert!(peak <= cap_q1 + cap_q2);
    assert!(full_warnings > 0);
    assert_eq!(metrics.frames_captured.load(), 25);
    // Two frames finished in 5 s (solid frames share a hash, so the second is a
    // store-level duplicate of the first).
    assert_eq!(metrics.frames_stored.load() + metrics.frames_deduped_db.load(), 2);
}

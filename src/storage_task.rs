//! Decisions of the storage stage: for each envelope taken from the storage
//! queue, check the store for a near duplicate, write the JPEG, insert the
//! frame row; on shutdown, drain the queue without the duplicate check.
//! The stage is a machine from (state, event) to (state, action); the caller
//! performs each action and reports its outcome as the next event.
use vstd::prelude::*;

use crate::metrics::{
    lemma_snapshot_le_transitive, saturating_sum, snapshot_le, MetricsSnapshot, PipelineMetrics,
};

verus! {

/// What the storage stage needs to know of a queued frame besides its pixels.
#[derive(Debug, Clone, Copy, PartialEq, Eq, Structural)]
pub struct EnvelopeMeta {
    pub phash: i64,
    pub captured_at_millis: i64,
    pub monitor_id: u32,
}

/// Answer of the store's near-duplicate check.
#[derive(Debug, Clone, Copy, PartialEq, Eq, Structural)]
pub enum DuplicateCheck {
    /// A stored frame within the threshold, with its identifier.
    Found(u128),
    NotFound,
    /// The check itself failed; the stage proceeds as if nothing was found.
    Failed,
}

/// What happened since the last action.
#[derive(Debug, Clone, Copy, PartialEq, Eq, Structural)]
pub enum StorageEvent {
    /// An envelope was taken from the queue.
    Received(EnvelopeMeta),
    /// The queue is closed (while receiving) or empty (while draining).
    QueueEmpty,
    /// The shutdown signal arrived.
    Shutdown,
    DuplicateChecked(DuplicateCheck),
    /// The JPEG was written; its size in bytes.
    Saved(u64),
    SaveFailed,
    /// The row was inserted under this identifier.
    Inserted(u128),
    InsertFailed,
}

/// What the caller is to do next.
#[derive(Debug, Clone, Copy, PartialEq, Eq, Structural)]
pub enum StorageAction {
    /// Wait for the next envelope or for shutdown.
    Receive,
    /// Ask the store whether a frame within the threshold of `phash` was stored in
    /// the last `window_secs` seconds.
    CheckDuplicate { phash: i64, window_secs: u64 },
    /// Encode the current envelope's pixels as JPEG and write them under the
    /// date partition of `captured_at_millis`.
    SaveJpeg { captured_at_millis: i64, quality: u8 },
    /// Insert the frame row.
    InsertFrame { captured_at_millis: i64, image_size_bytes: i64, phash: i64 },
    /// Take the next envelope without waiting; report `QueueEmpty` if there is none.
    DrainNext,
    /// Leave the stage.
    Exit,
}

/// Where the stage stands.
#[derive(Debug, Clone, Copy, PartialEq, Eq, Structural)]
pub enum StoragePhase {
    Receiving,
    Checking(EnvelopeMeta),
    Saving(EnvelopeMeta),
    Inserting(EnvelopeMeta, i64),
    Draining,
    DrainSaving(EnvelopeMeta),
    DrainInserting(EnvelopeMeta, i64),
    Stopped,
}

/// The storage stage: its settings and its phase.
#[derive(Debug, Clone, Copy, PartialEq, Eq, Structural)]
pub struct StorageStage {
    pub jpeg_quality: u8,
    pub dedup_window_secs: u64,
    pub phase: StoragePhase,
}

pub open spec fn with_phase(s: StorageStage, p: StoragePhase) -> StorageStage {
    StorageStage { phase: p, ..s }
}

pub open spec fn add_deduped_db(m: MetricsSnapshot) -> MetricsSnapshot {
    MetricsSnapshot { frames_deduped_db: saturating_sum(m.frames_deduped_db, 1), ..m }
}

pub open spec fn add_stored(m: MetricsSnapshot) -> MetricsSnapshot {
    MetricsSnapshot { frames_stored: saturating_sum(m.frames_stored, 1), ..m }
}

pub open spec fn add_failed(m: MetricsSnapshot) -> MetricsSnapshot {
    MetricsSnapshot { frames_failed: saturating_sum(m.frames_failed, 1), ..m }
}

pub open spec fn save_action(s: StorageStage, e: EnvelopeMeta) -> StorageAction {
    StorageAction::SaveJpeg { captured_at_millis: e.captured_at_millis, quality: s.jpeg_quality }
}

pub open spec fn insert_action(e: EnvelopeMeta, size: i64) -> StorageAction {
    StorageAction::InsertFrame {
        captured_at_millis: e.captured_at_millis,
        image_size_bytes: size,
        phash: e.phash,
    }
}

/// The action a phase waits on.
pub open spec fn pending_action(s: StorageStage) -> StorageAction {
    match s.phase {
        StoragePhase::Receiving => StorageAction::Receive,
        StoragePhase::Checking(e) => StorageAction::CheckDuplicate {
            phash: e.phash,
            window_secs: s.dedup_window_secs,
        },
        StoragePhase::Saving(e) => save_action(s, e),
        StoragePhase::Inserting(e, size) => insert_action(e, size),
        StoragePhase::Draining => StorageAction::DrainNext,
        StoragePhase::DrainSaving(e) => save_action(s, e),
        StoragePhase::DrainInserting(e, size) => insert_action(e, size),
        StoragePhase::Stopped => StorageAction::Exit,
    }
}

/// One transition: the next stage, the counters after it, and the next action.
/// An event the phase does not wait on changes nothing and repeats the pending action.
pub open spec fn storage_step(s: StorageStage, m: MetricsSnapshot, ev: StorageEvent) -> (
    StorageStage,
    MetricsSnapshot,
    StorageAction,
) {
    match (s.phase, ev) {
        (StoragePhase::Receiving, StorageEvent::Received(e)) => {
            let t = with_phase(s, StoragePhase::Checking(e));
            (t, m, pending_action(t))
        },
        (StoragePhase::Receiving, StorageEvent::QueueEmpty) => (
            with_phase(s, StoragePhase::Stopped),
            m,
            StorageAction::Exit,
        ),
        (StoragePhase::Receiving, StorageEvent::Shutdown) => (
            with_phase(s, StoragePhase::Draining),
            m,
            StorageAction::DrainNext,
        ),
        (StoragePhase::Checking(_), StorageEvent::DuplicateChecked(DuplicateCheck::Found(_))) => (
            with_phase(s, StoragePhase::Receiving),
            add_deduped_db(m),
            StorageAction::Receive,
        ),
        (StoragePhase::Checking(e), StorageEvent::DuplicateChecked(_)) => (
            with_phase(s, StoragePhase::Saving(e)),
            m,
            save_action(s, e),
        ),
        (StoragePhase::Saving(e), StorageEvent::Saved(size)) => (
            with_phase(s, StoragePhase::Inserting(e, size as i64)),
            m,
            insert_action(e, size as i64),
        ),
        (StoragePhase::Saving(_), StorageEvent::SaveFailed) => (
            with_phase(s, StoragePhase::Receiving),
            add_failed(m),
            StorageAction::Receive,
        ),
        (StoragePhase::Inserting(_, _), StorageEvent::Inserted(_)) => (
            with_phase(s, StoragePhase::Receiving),
            add_stored(m),
            StorageAction::Receive,
        ),
        (StoragePhase::Inserting(_, _), StorageEvent::InsertFailed) => (
            with_phase(s, StoragePhase::Receiving),
            add_failed(m),
            StorageAction::Receive,
        ),
        (StoragePhase::Draining, StorageEvent::Received(e)) => (
            with_phase(s, StoragePhase::DrainSaving(e)),
            m,
            save_action(s, e),
        ),
        (StoragePhase::Draining, StorageEvent::QueueEmpty) => (
            with_phase(s, StoragePhase::Stopped),
            m,
            StorageAction::Exit,
        ),
        (StoragePhase::DrainSaving(e), StorageEvent::Saved(size)) => (
            with_phase(s, StoragePhase::DrainInserting(e, size as i64)),
            m,
            insert_action(e, size as i64),
        ),
        (StoragePhase::DrainSaving(_), StorageEvent::SaveFailed) => (
            with_phase(s, StoragePhase::Draining),
            add_failed(m),
            StorageAction::DrainNext,
        ),
        (StoragePhase::DrainInserting(_, _), StorageEvent::Inserted(_)) => (
            with_phase(s, StoragePhase::Draining),
            add_stored(m),
            StorageAction::DrainNext,
        ),
        (StoragePhase::DrainInserting(_, _), StorageEvent::InsertFailed) => (
            with_phase(s, StoragePhase::Draining),
            add_failed(m),
            StorageAction::DrainNext,
        ),
        _ => (s, m, pending_action(s)),
    }
}

/// The stage and counters after a sequence of events.
pub open spec fn storage_run(s: StorageStage, m: MetricsSnapshot, evs: Seq<StorageEvent>) -> (
    StorageStage,
    MetricsSnapshot,
)
    decreases evs.len(),
{
    if evs.len() == 0 {
        (s, m)
    } else {
        let (t, n, _) = storage_step(s, m, evs[0]);
        storage_run(t, n, evs.drop_first())
    }
}

/// The events of draining `items` when every write and insert succeeds: for
/// each envelope, its receipt, the JPEG size written, and the new row's id.
pub open spec fn drain_events(items: Seq<(EnvelopeMeta, u64, u128)>) -> Seq<StorageEvent>
    decreases items.len(),
{
    if items.len() == 0 {
        seq![]
    } else {
        seq![
            StorageEvent::Received(items[0].0),
            StorageEvent::Saved(items[0].1),
            StorageEvent::Inserted(items[0].2),
        ] + drain_events(items.drop_first())
    }
}

/// No transition lowers a counter.
pub proof fn lemma_storage_step_monotone(s: StorageStage, m: MetricsSnapshot, ev: StorageEvent)
    ensures
        snapshot_le(m, storage_step(s, m, ev).1),
{
}

/// Counters never decrease over any sequence of events.
pub proof fn lemma_storage_run_monotone(s: StorageStage, m: MetricsSnapshot, evs: Seq<StorageEvent>)
    ensures
        snapshot_le(m, storage_run(s, m, evs).1),
    decreases evs.len(),
{
    if evs.len() > 0 {
        let (t, n, _) = storage_step(s, m, evs[0]);
        lemma_storage_step_monotone(s, m, evs[0]);
        lemma_storage_run_monotone(t, n, evs.drop_first());
        lemma_snapshot_le_transitive(m, n, storage_run(t, n, evs.drop_first()).1);
    }
}

/// Once shut down, the stage never asks for a duplicate check again: every
/// transition from a draining phase stays in a draining phase or stops.
pub proof fn lemma_drain_skips_duplicate_check(s: StorageStage, m: MetricsSnapshot, ev: StorageEvent)
    requires
        is_draining(s.phase),
    ensures
        is_draining(storage_step(s, m, ev).0.phase),
        !(storage_step(s, m, ev).2 is CheckDuplicate),
{
}

/// The phases of the shutdown drain, and the stopped phase after it.
pub open spec fn is_draining(p: StoragePhase) -> bool {
    match p {
        StoragePhase::Draining => true,
        StoragePhase::DrainSaving(_) => true,
        StoragePhase::DrainInserting(_, _) => true,
        StoragePhase::Stopped => true,
        _ => false,
    }
}

/// Running `a` then `b` is running `a + b`.
proof fn lemma_run_concat(
    s: StorageStage,
    m: MetricsSnapshot,
    a: Seq<StorageEvent>,
    b: Seq<StorageEvent>,
)
    ensures
        storage_run(s, m, a + b) == storage_run(storage_run(s, m, a).0, storage_run(s, m, a).1, b),
    decreases a.len(),
{
    if a.len() == 0 {
        assert(a + b =~= b);
    } else {
        let (t, n, _) = storage_step(s, m, a[0]);
        assert((a + b)[0] == a[0]);
        assert((a + b).drop_first() =~= a.drop_first() + b);
        lemma_run_concat(t, n, a.drop_first(), b);
    }
}

/// While draining, each envelope whose write and insert succeed adds exactly one
/// stored frame and leaves the stage draining.
proof fn lemma_drain_items(s: StorageStage, m: MetricsSnapshot, items: Seq<(EnvelopeMeta, u64, u128)>)
    requires
        s.phase == StoragePhase::Draining,
        m.frames_stored + items.len() <= u64::MAX,
    ensures
        storage_run(s, m, drain_events(items)) == (
            s,
            MetricsSnapshot { frames_stored: (m.frames_stored + items.len()) as u64, ..m },
        ),
    decreases items.len(),
{
    if items.len() == 0 {
        assert(MetricsSnapshot { frames_stored: (m.frames_stored + items.len()) as u64, ..m } == m);
    } else {
        let (e, size, id) = items[0];
        let three = seq![
            StorageEvent::Received(e),
            StorageEvent::Saved(size),
            StorageEvent::Inserted(id),
        ];
        let rest = items.drop_first();
        assert(drain_events(items) == three + drain_events(rest));
        lemma_run_concat(s, m, three, drain_events(rest));
        let s1 = with_phase(s, StoragePhase::DrainSaving(e));
        let s2 = with_phase(s, StoragePhase::DrainInserting(e, size as i64));
        assert(storage_step(s, m, three[0]).0 == s1);
        assert(storage_step(s1, m, three[1]).0 == s2);
        assert(storage_step(s2, m, three[2]).0 == s);
        assert(three.drop_first().drop_first().drop_first() =~= Seq::<StorageEvent>::empty());
        assert(storage_run(s, m, three) == (s, add_stored(m))) by {
            reveal_with_fuel(storage_run, 4);
        }
        lemma_drain_items(s, add_stored(m), rest);
    }
}

/// Shutdown drain: a stage idle at shutdown, with `k` envelopes left in its queue
/// and a store that accepts every write and insert, stores exactly `k` more
/// frames, changes no other counter, and then stops.
pub proof fn lemma_shutdown_drain(s: StorageStage, m: MetricsSnapshot, items: Seq<(EnvelopeMeta, u64, u128)>)
    requires
        s.phase == StoragePhase::Receiving,
        m.frames_stored + items.len() <= u64::MAX,
    ensures
        storage_run(s, m, seq![StorageEvent::Shutdown] + drain_events(items) + seq![StorageEvent::QueueEmpty])
            == (
            with_phase(s, StoragePhase::Stopped),
            MetricsSnapshot { frames_stored: (m.frames_stored + items.len()) as u64, ..m },
        ),
{
    let d = with_phase(s, StoragePhase::Draining);
    let m2 = MetricsSnapshot { frames_stored: (m.frames_stored + items.len()) as u64, ..m };
    let head = seq![StorageEvent::Shutdown];
    let tail = seq![StorageEvent::QueueEmpty];
    lemma_run_concat(s, m, head + drain_events(items), tail);
    lemma_run_concat(s, m, head, drain_events(items));
    assert(head.drop_first() =~= Seq::<StorageEvent>::empty());
    assert(storage_run(s, m, head) == (d, m)) by {
        reveal_with_fuel(storage_run, 2);
    }
    lemma_drain_items(d, m, items);
    assert(tail.drop_first() =~= Seq::<StorageEvent>::empty());
    assert(storage_run(d, m2, tail) == (with_phase(s, StoragePhase::Stopped), m2)) by {
        reveal_with_fuel(storage_run, 2);
    }
}

impl StorageStage {
    /// A stage waiting for its first envelope.
    pub fn new(jpeg_quality: u8, dedup_window_secs: u64) -> (r: StorageStage)
        ensures
            r.jpeg_quality == jpeg_quality,
            r.dedup_window_secs == dedup_window_secs,
            r.phase == StoragePhase::Receiving,
    {
        StorageStage { jpeg_quality, dedup_window_secs, phase: StoragePhase::Receiving }
    }

    fn pending(&self) -> (r: StorageAction)
        ensures
            r == pending_action(*self),
    {
        match self.phase {
            StoragePhase::Receiving => StorageAction::Receive,
            StoragePhase::Checking(e) => StorageAction::CheckDuplicate {
                phash: e.phash,
                window_secs: self.dedup_window_secs,
            },
            StoragePhase::Saving(e) => StorageAction::SaveJpeg {
                captured_at_millis: e.captured_at_millis,
                quality: self.jpeg_quality,
            },
            StoragePhase::Inserting(e, size) => StorageAction::InsertFrame {
                captured_at_millis: e.captured_at_millis,
                image_size_bytes: size,
                phash: e.phash,
            },
            StoragePhase::Draining => StorageAction::DrainNext,
            StoragePhase::DrainSaving(e) => StorageAction::SaveJpeg {
                captured_at_millis: e.captured_at_millis,
                quality: self.jpeg_quality,
            },
            StoragePhase::DrainInserting(e, size) => StorageAction::InsertFrame {
                captured_at_millis: e.captured_at_millis,
                image_size_bytes: size,
                phash: e.phash,
            },
            StoragePhase::Stopped => StorageAction::Exit,
        }
    }

    /// Take one event, update the counters, and say what to do next.
    pub fn step(&mut self, ev: StorageEvent, metrics: &mut PipelineMetrics) -> (r: StorageAction)
        ensures
            (*final(self), final(metrics)@, r) == storage_step(*old(self), old(metrics)@, ev),
            snapshot_le(old(metrics)@, final(metrics)@),
    {
        proof {
            lemma_storage_step_monotone(*self, metrics@, ev);
        }
        match (self.phase, ev) {
            (StoragePhase::Receiving, StorageEvent::Received(e)) => {
                self.phase = StoragePhase::Checking(e);
                self.pending()
            },
            (StoragePhase::Receiving, StorageEvent::QueueEmpty) => {
                self.phase = StoragePhase::Stopped;
                StorageAction::Exit
            },
            (StoragePhase::Receiving, StorageEvent::Shutdown) => {
                self.phase = StoragePhase::Draining;
                StorageAction::DrainNext
            },
            (StoragePhase::Checking(e), StorageEvent::DuplicateChecked(check)) => {
                match check {
                    DuplicateCheck::Found(_) => {
                        metrics.frames_deduped_db.increment();
                        self.phase = StoragePhase::Receiving;
                        StorageAction::Receive
                    },
                    _ => {
                        self.phase = StoragePhase::Saving(e);
                        self.pending()
                    },
                }
            },
            (StoragePhase::Saving(e), StorageEvent::Saved(size)) => {
                self.phase = StoragePhase::Inserting(e, size as i64);
                self.pending()
            },
            (StoragePhase::Saving(_), StorageEvent::SaveFailed) => {
                metrics.frames_failed.increment();
                self.phase = StoragePhase::Receiving;
                StorageAction::Receive
            },
            (StoragePhase::Inserting(_, _), StorageEvent::Inserted(_)) => {
                metrics.frames_stored.increment();
                self.phase = StoragePhase::Receiving;
                StorageAction::Receive
            },
            (StoragePhase::Inserting(_, _), StorageEvent::InsertFailed) => {
                metrics.frames_failed.increment();
                self.phase = StoragePhase::Receiving;
                StorageAction::Receive
            },
            (StoragePhase::Draining, StorageEvent::Received(e)) => {
                self.phase = StoragePhase::DrainSaving(e);
                self.pending()
            },
            (StoragePhase::Draining, StorageEvent::QueueEmpty) => {
                self.phase = StoragePhase::Stopped;
                StorageAction::Exit
            },
            (StoragePhase::DrainSaving(e), StorageEvent::Saved(size)) => {
                self.phase = StoragePhase::DrainInserting(e, size as i64);
                self.pending()
            },
            (StoragePhase::DrainSaving(_), StorageEvent::SaveFailed) => {
                metrics.frames_failed.increment();
                self.phase = StoragePhase::Draining;
                StorageAction::DrainNext
            },
            (StoragePhase::DrainInserting(_, _), StorageEvent::Inserted(_)) => {
                metrics.frames_stored.increment();
                self.phase = StoragePhase::Draining;
                StorageAction::DrainNext
            },
            (StoragePhase::DrainInserting(_, _), StorageEvent::InsertFailed) => {
                metrics.frames_failed.increment();
                self.phase = StoragePhase::Draining;
                StorageAction::DrainNext
            },
            _ => self.pending(),
        }
    }
}

} // verus!

//! The relational store's record shapes and the rules the store applies to
//! them: processing statuses, the prefix invariant of a new frame row, and the
//! near-duplicate lookup over recent candidates.
use vstd::prelude::*;

use crate::dedup::{
    hamming, hamming_distance, hash_prefix, lemma_hamming_complement, lemma_hamming_one_bit,
    lemma_hamming_self, lemma_hamming_symmetric, prefix_of,
};

verus! {

/// Largest Hamming distance at which a stored frame counts as a duplicate.
pub const DEDUP_HAMMING_THRESHOLD: u32 = 10;

/// Most candidates the store returns for one prefix lookup.
pub const MAX_DEDUP_CANDIDATES: usize = 5000;

/// Milliseconds per second.
pub const MILLIS_PER_SEC: i64 = 1000;

/// Processing status for vision summarisation.
#[derive(Debug, Clone, Copy, PartialEq, Eq, Structural)]
pub enum VisionStatus {
    Pending,
    Processed,
    Failed,
    Skipped,
}

/// Processing status for embedding generation.
#[derive(Debug, Clone, Copy, PartialEq, Eq, Structural)]
pub enum EmbeddingStatus {
    Pending,
    Processed,
    Failed,
    Skipped,
}

/// The SMALLINT code of a status: pending 0, processed 1, failed 2, skipped 3.
pub open spec fn vision_code(s: VisionStatus) -> i16 {
    match s {
        VisionStatus::Pending => 0,
        VisionStatus::Processed => 1,
        VisionStatus::Failed => 2,
        VisionStatus::Skipped => 3,
    }
}

/// The status a stored code denotes; unknown codes read as pending.
pub open spec fn vision_of_code(v: i16) -> VisionStatus {
    if v == 1 {
        VisionStatus::Processed
    } else if v == 2 {
        VisionStatus::Failed
    } else if v == 3 {
        VisionStatus::Skipped
    } else {
        VisionStatus::Pending
    }
}

pub open spec fn embedding_code(s: EmbeddingStatus) -> i16 {
    match s {
        EmbeddingStatus::Pending => 0,
        EmbeddingStatus::Processed => 1,
        EmbeddingStatus::Failed => 2,
        EmbeddingStatus::Skipped => 3,
    }
}

pub open spec fn embedding_of_code(v: i16) -> EmbeddingStatus {
    if v == 1 {
        EmbeddingStatus::Processed
    } else if v == 2 {
        EmbeddingStatus::Failed
    } else if v == 3 {
        EmbeddingStatus::Skipped
    } else {
        EmbeddingStatus::Pending
    }
}

impl From<i16> for VisionStatus {
    fn from(v: i16) -> (r: VisionStatus) {
        if v == 1 {
            VisionStatus::Processed
        } else if v == 2 {
            VisionStatus::Failed
        } else if v == 3 {
            VisionStatus::Skipped
        } else {
            VisionStatus::Pending
        }
    }
}

impl vstd::std_specs::convert::FromSpecImpl<i16> for VisionStatus {
    open spec fn obeys_from_spec() -> bool {
        true
    }

    open spec fn from_spec(v: i16) -> VisionStatus {
        vision_of_code(v)
    }
}

impl VisionStatus {
    /// Convert to the SMALLINT representation stored in the database.
    pub fn to_smallint(self) -> (r: i16)
        ensures
            r == vision_code(self),
    {
        match self {
            VisionStatus::Pending => 0,
            VisionStatus::Processed => 1,
            VisionStatus::Failed => 2,
            VisionStatus::Skipped => 3,
        }
    }
}

impl From<i16> for EmbeddingStatus {
    fn from(v: i16) -> (r: EmbeddingStatus) {
        if v == 1 {
            EmbeddingStatus::Processed
        } else if v == 2 {
            EmbeddingStatus::Failed
        } else if v == 3 {
            EmbeddingStatus::Skipped
        } else {
            EmbeddingStatus::Pending
        }
    }
}

impl vstd::std_specs::convert::FromSpecImpl<i16> for EmbeddingStatus {
    open spec fn obeys_from_spec() -> bool {
        true
    }

    open spec fn from_spec(v: i16) -> EmbeddingStatus {
        embedding_of_code(v)
    }
}

impl EmbeddingStatus {
    /// Convert to the SMALLINT representation stored in the database.
    pub fn to_smallint(self) -> (r: i16)
        ensures
            r == embedding_code(self),
    {
        match self {
            EmbeddingStatus::Pending => 0,
            EmbeddingStatus::Processed => 1,
            EmbeddingStatus::Failed => 2,
            EmbeddingStatus::Skipped => 3,
        }
    }
}

/// High-level storage metrics.
#[derive(Debug, Clone, Copy, PartialEq, Eq, Structural)]
pub struct StorageStats {
    pub total_frames: i64,
    pub frames_with_ocr: i64,
    pub total_image_bytes: i64,
}

/// Per-application usage over a time range; instants are Unix milliseconds.
#[derive(Debug, Clone)]
pub struct AppStats {
    pub app_name: String,
    pub frame_count: i64,
    pub total_seconds: i64,
    pub first_seen_millis: i64,
    pub last_seen_millis: i64,
}

/// A frame row as it is inserted: its identifier, capture instant (Unix
/// milliseconds, UTC), deployment, optional window context, image reference
/// and size, and the perceptual hash together with its prefix.
#[derive(Debug, Clone)]
pub struct NewFrame {
    pub id: u128,
    pub captured_at_millis: i64,
    pub deployment_id: String,
    pub window_title: Option<String>,
    pub app_name: Option<String>,
    pub image_ref: String,
    pub image_size_bytes: i64,
    pub phash: i64,
    pub phash_prefix: i16,
}

impl NewFrame {
    /// The stored prefix always agrees with the stored hash.
    pub open spec fn wf(&self) -> bool {
        self.phash_prefix == prefix_of(self.phash)
    }

    /// Assemble the row for a new frame, deriving the hash prefix.
    pub fn new(
        id: u128,
        captured_at_millis: i64,
        deployment_id: String,
        window_title: Option<String>,
        app_name: Option<String>,
        image_ref: String,
        image_size_bytes: i64,
        phash: i64,
    ) -> (r: NewFrame)
        ensures
            r.wf(),
            r.id == id,
            r.captured_at_millis == captured_at_millis,
            r.deployment_id == deployment_id,
            r.window_title == window_title,
            r.app_name == app_name,
            r.image_ref == image_ref,
            r.image_size_bytes == image_size_bytes,
            r.phash == phash,
    {
        let phash_prefix = hash_prefix(phash);
        NewFrame {
            id,
            captured_at_millis,
            deployment_id,
            window_title,
            app_name,
            image_ref,
            image_size_bytes,
            phash,
            phash_prefix,
        }
    }
}

/// Index of the first candidate within the duplicate threshold of `phash`,
/// looking no further than the first `n` candidates.
pub open spec fn first_similar_index(phash: i64, candidates: Seq<(u128, i64)>, n: nat) -> Option<
    nat,
>
    decreases n,
{
    if n == 0 || n > candidates.len() {
        None
    } else {
        match first_similar_index(phash, candidates, (n - 1) as nat) {
            Some(i) => Some(i),
            None => if hamming(phash, candidates[n - 1].1) <= DEDUP_HAMMING_THRESHOLD {
                Some((n - 1) as nat)
            } else {
                None
            },
        }
    }
}

/// The identifier of the first candidate within the duplicate threshold, if any.
pub open spec fn duplicate_of(phash: i64, candidates: Seq<(u128, i64)>) -> Option<u128> {
    match first_similar_index(phash, candidates, candidates.len()) {
        Some(i) => Some(candidates[i as int].0),
        None => None,
    }
}

/// What `first_similar_index` finds: no earlier candidate is close, the found one is.
proof fn lemma_first_similar_index(phash: i64, candidates: Seq<(u128, i64)>, n: nat)
    requires
        n <= candidates.len(),
    ensures
        first_similar_index(phash, candidates, n) matches Some(i) ==> i < n && hamming(
            phash,
            candidates[i as int].1,
        ) <= DEDUP_HAMMING_THRESHOLD && forall|j: int|
            0 <= j < i ==> hamming(phash, #[trigger] candidates[j].1) > DEDUP_HAMMING_THRESHOLD,
        first_similar_index(phash, candidates, n) is None ==> forall|j: int|
            0 <= j < n ==> hamming(phash, #[trigger] candidates[j].1) > DEDUP_HAMMING_THRESHOLD,
    decreases n,
{
    if n > 0 {
        lemma_first_similar_index(phash, candidates, (n - 1) as nat);
    }
}

/// Given recent candidates `(id, phash)` sharing the prefix of `phash`, return the
/// identifier of the first one within `DEDUP_HAMMING_THRESHOLD` bits, if any.
pub fn find_duplicate(phash: i64, candidates: &Vec<(u128, i64)>) -> (r: Option<u128>)
    ensures
        r == duplicate_of(phash, candidates@),
        r is None <==> forall|j: int|
            0 <= j < candidates@.len() ==> hamming(phash, #[trigger] candidates@[j].1)
                > DEDUP_HAMMING_THRESHOLD,
        r matches Some(id) ==> exists|j: int|
            0 <= j < candidates@.len() && #[trigger] candidates@[j].0 == id && hamming(
                phash,
                candidates@[j].1,
            ) <= DEDUP_HAMMING_THRESHOLD,
{
    proof {
        lemma_first_similar_index(phash, candidates@, candidates@.len());
    }
    let mut i: usize = 0;
    while i < candidates.len()
        invariant
            i <= candidates@.len(),
            first_similar_index(phash, candidates@, i as nat) is None,
        decreases candidates@.len() - i,
    {
        let (id, h) = candidates[i];
        if hamming_distance(phash, h) <= DEDUP_HAMMING_THRESHOLD {
            assert(first_similar_index(phash, candidates@, (i + 1) as nat) == Some(i as nat));
            proof {
                lemma_first_similar_index(phash, candidates@, (i + 1) as nat);
                lemma_first_similar_prefix_stable(phash, candidates@, (i + 1) as nat);
            }
            return Some(id);
        }
        i = i + 1;
    }
    None
}

/// Once the first similar candidate lies within the first `n`, longer prefixes find it too.
proof fn lemma_first_similar_prefix_stable(phash: i64, candidates: Seq<(u128, i64)>, n: nat)
    requires
        n <= candidates.len(),
        first_similar_index(phash, candidates, n) is Some,
    ensures
        first_similar_index(phash, candidates, candidates.len()) == first_similar_index(
            phash,
            candidates,
            n,
        ),
    decreases candidates.len() - n,
{
    if n < candidates.len() {
        assert(first_similar_index(phash, candidates, n + 1) == first_similar_index(
            phash,
            candidates,
            n,
        ));
        lemma_first_similar_prefix_stable(phash, candidates, n + 1);
    }
}

/// Earliest capture instant (Unix milliseconds) inside a look-back window of
/// `window_secs` seconds ending at `now_millis`, clamped at the earliest instant.
pub open spec fn window_start(now_millis: i64, window_secs: u64) -> int {
    let start = now_millis - window_secs * 1000;
    if start < i64::MIN {
        i64::MIN as int
    } else {
        start
    }
}

/// What the store is asked for when checking `phash` for duplicates: candidates
/// with this prefix captured at or after this instant.
#[derive(Debug, Clone, Copy, PartialEq, Eq, Structural)]
pub struct DuplicateQuery {
    pub prefix: i16,
    pub since_millis: i64,
}

/// The candidate query for a duplicate check of `phash` over the last `window_secs`.
pub fn duplicate_query(phash: i64, window_secs: u64, now_millis: i64) -> (r: DuplicateQuery)
    ensures
        r.prefix == prefix_of(phash),
        r.since_millis == window_start(now_millis, window_secs),
{
    let prefix = hash_prefix(phash);
    let start: i128 = now_millis as i128 - window_secs as i128 * (MILLIS_PER_SEC as i128);
    let since_millis: i64 = if start < i64::MIN as i128 {
        i64::MIN
    } else {
        start as i64
    };
    DuplicateQuery { prefix, since_millis }
}

/// With one stored frame `(id, h)` in the window: a check of `h` finds it, a
/// check of `h` with its lowest bit flipped (distance 1, same prefix) finds it,
/// and a check of the complement of `h` (distance 64) finds nothing.
pub proof fn lemma_dedup_window(id: u128, h: i64)
    ensures
        duplicate_of(h, seq![(id, h)]) == Some(id),
        prefix_of(h ^ 1) == prefix_of(h),
        duplicate_of(h ^ 1, seq![(id, h)]) == Some(id),
        duplicate_of(!h, seq![(id, h)]) is None,
{
    let c = seq![(id, h)];
    lemma_hamming_self(h);
    lemma_hamming_one_bit(h, 0);
    assert(h ^ ((1u64 << 0u64) as i64) == h ^ 1) by (bit_vector);
    lemma_hamming_symmetric(h, h ^ 1);
    lemma_hamming_complement(h);
    lemma_hamming_symmetric(h, !h);
    assert((((h ^ 1) as u64) >> 48u64) == ((h as u64) >> 48u64)) by (bit_vector);
    assert(first_similar_index(h, c, 0) is None);
    assert(first_similar_index(h ^ 1, c, 0) is None);
    let nh = !h;
    assert(i64::MIN <= nh <= i64::MAX) by (bit_vector)
        requires
            nh == !h,
    ;
    assert(first_similar_index(nh, c, 0) is None);
    assert(c[0].1 == h);
    assert(hamming(nh, h) == 64);
}

/// A status survives the trip to its stored code and back.
pub proof fn lemma_status_code_round_trip(v: VisionStatus, e: EmbeddingStatus)
    ensures
        vision_of_code(vision_code(v)) == v,
        embedding_of_code(embedding_code(e)) == e,
{
}

} // verus!

//! Stateful frame comparator: decides, for each new frame, whether it is the
//! first one, byte-identical to the previous one (content-hash short-circuit),
//! or has to be scored against the previous one, optionally after an integer
//! nearest-neighbour downscale.
use vstd::prelude::*;

use crate::capture::MAX_DIFFERENCE_PPM;
use crate::metrics::saturating_sum;
use crate::raster::{rgba_len, same_raster, Raster};

verus! {

/// Comparator settings.
#[derive(Debug, Clone, Copy, PartialEq, Eq, Structural)]
pub struct FrameComparisonConfig {
    /// Report "unchanged" at once when the (downscaled) bytes hash as before.
    pub hash_early_exit: bool,
    /// Compare downscaled copies instead of full frames.
    pub downscale_comparison: bool,
    /// Integer downscale factor; 0 keeps the full size.
    pub downscale_factor: u32,
    /// Score with the histogram metric alone.
    pub single_metric: bool,
}

/// Default integer downscale factor.
pub const DEFAULT_DOWNSCALE_FACTOR: u32 = 6;

impl Default for FrameComparisonConfig {
    fn default() -> (r: FrameComparisonConfig)
        ensures
            r.hash_early_exit,
            r.downscale_comparison,
            r.downscale_factor == 6,
            r.single_metric,
    {
        FrameComparisonConfig {
            hash_early_exit: true,
            downscale_comparison: true,
            downscale_factor: DEFAULT_DOWNSCALE_FACTOR,
            single_metric: true,
        }
    }
}

/// The RGBA bytes of a raster resized to `new_width` x `new_height` with the
/// nearest-neighbour filter, as the imaging library computes them.
pub uninterp spec fn nearest_resize_of(
    width: u32,
    height: u32,
    rgba: Seq<u8>,
    new_width: u32,
    new_height: u32,
) -> Seq<u8>;

/// The standard library's default 64-bit hash of a byte slice.
pub uninterp spec fn content_digest_of(bytes: Seq<u8>) -> u64;

/// Relies on image's `imageops::resize` with `FilterType::Nearest`: an RGBA
/// buffer of exactly `new_width * new_height` pixels that depends on the
/// arguments alone.
#[verifier::external_body]
fn resize_nearest(r: &Raster, new_width: u32, new_height: u32) -> (out: Vec<u8>)
    requires
        r.wf(),
        rgba_len(new_width, new_height) <= usize::MAX,
    ensures
        out@ == nearest_resize_of(r.spec_width(), r.spec_height(), r.bytes(), new_width, new_height),
        out@.len() == rgba_len(new_width, new_height),
{
    let img = image::RgbaImage::from_raw(r.width(), r.height(), r.as_bytes().clone()).unwrap();
    image::imageops::resize(&img, new_width, new_height, image::imageops::FilterType::Nearest)
        .into_raw()
}

/// Relies on `std::hash::DefaultHasher::new` (fixed keys) fed the byte slice:
/// the result depends on the bytes alone.
#[verifier::external_body]
fn content_digest(bytes: &Vec<u8>) -> (h: u64)
    ensures
        h == content_digest_of(bytes@),
{
    let mut hasher = std::hash::DefaultHasher::new();
    std::hash::Hash::hash(bytes.as_slice(), &mut hasher);
    std::hash::Hasher::finish(&hasher)
}

/// `max(v / factor, 1)`, or `v` itself when `factor` is 0.
pub open spec fn scaled_side(v: u32, factor: u32) -> u32 {
    if factor == 0 {
        v
    } else if v / factor >= 1 {
        (v / factor) as u32
    } else {
        1
    }
}

/// Whether the downscaled copy of `current` fits in memory (always, on 64-bit targets).
pub open spec fn downscale_fits(config: FrameComparisonConfig, current: Raster) -> bool {
    rgba_len(
        scaled_side(current.spec_width(), config.downscale_factor),
        scaled_side(current.spec_height(), config.downscale_factor),
    ) <= usize::MAX
}

/// The bytes of the raster that is hashed and compared for `current`.
pub open spec fn key_bytes(config: FrameComparisonConfig, current: Raster) -> Seq<u8> {
    if config.downscale_comparison && downscale_fits(config, current) {
        nearest_resize_of(
            current.spec_width(),
            current.spec_height(),
            current.bytes(),
            scaled_side(current.spec_width(), config.downscale_factor),
            scaled_side(current.spec_height(), config.downscale_factor),
        )
    } else {
        current.bytes()
    }
}

/// `k` is the raster hashed and compared for `current`: its downscaled copy when
/// downscaling is configured (and fits), else `current` itself.
pub open spec fn is_key_raster(config: FrameComparisonConfig, current: Raster, k: Raster) -> bool {
    if config.downscale_comparison && downscale_fits(config, current) {
        &&& k.spec_width() == scaled_side(current.spec_width(), config.downscale_factor)
        &&& k.spec_height() == scaled_side(current.spec_height(), config.downscale_factor)
        &&& k.bytes() == key_bytes(config, current)
    } else {
        same_raster(k, current)
    }
}

/// The content hash recorded for `current`, when hash short-circuits are on.
pub open spec fn frame_hash(config: FrameComparisonConfig, current: Raster) -> Option<u64> {
    if config.hash_early_exit {
        Some(content_digest_of(key_bytes(config, current)))
    } else {
        None
    }
}

/// Which way a comparison goes.
#[derive(Debug, Clone, Copy, PartialEq, Eq, Structural)]
pub enum DeltaKind {
    First,
    Unchanged,
    Measure,
}

/// Outcome of comparing a frame with the previous one.
#[derive(Debug)]
pub enum FrameDelta {
    /// Nothing to compare with: maximal difference, keep the frame.
    First,
    /// Same content hash as the previous frame: no difference.
    Unchanged,
    /// Score `current` against `previous` (both downscaled when so configured).
    Measure { previous: Raster, current: Raster },
}

pub open spec fn kind_of(d: FrameDelta) -> DeltaKind {
    match d {
        FrameDelta::First => DeltaKind::First,
        FrameDelta::Unchanged => DeltaKind::Unchanged,
        FrameDelta::Measure { .. } => DeltaKind::Measure,
    }
}

/// The difference in millionths: 1.0 for a first frame, 0 for an unchanged one,
/// and for a measured one the score, or 1.0 when scoring failed.
pub open spec fn delta_ppm(kind: DeltaKind, score_ppm: Option<u64>) -> u64 {
    match kind {
        DeltaKind::First => MAX_DIFFERENCE_PPM,
        DeltaKind::Unchanged => 0,
        DeltaKind::Measure => match score_ppm {
            Some(s) => s,
            None => MAX_DIFFERENCE_PPM,
        },
    }
}

impl FrameDelta {
    /// The frame difference in millionths, given the score of a measured pair.
    pub fn difference_ppm(&self, score_ppm: Option<u64>) -> (r: u64)
        ensures
            r == delta_ppm(kind_of(*self), score_ppm),
    {
        match self {
            FrameDelta::First => MAX_DIFFERENCE_PPM,
            FrameDelta::Unchanged => 0,
            FrameDelta::Measure { .. } => match score_ppm {
                Some(s) => s,
                None => MAX_DIFFERENCE_PPM,
            },
        }
    }
}

/// Frame comparator with memory of the previous frame.
#[derive(Debug)]
pub struct FrameComparer {
    config: FrameComparisonConfig,
    previous_hash: Option<u64>,
    previous_image_downscaled: Option<Raster>,
    previous_image_full: Option<Raster>,
    comparison_count: u64,
    hash_hits: u64,
}

impl FrameComparer {
    pub closed spec fn spec_config(&self) -> FrameComparisonConfig {
        self.config
    }

    pub closed spec fn spec_previous_hash(&self) -> Option<u64> {
        self.previous_hash
    }

    pub closed spec fn spec_previous_downscaled(&self) -> Option<Raster> {
        self.previous_image_downscaled
    }

    pub closed spec fn spec_previous_full(&self) -> Option<Raster> {
        self.previous_image_full
    }

    pub closed spec fn spec_comparison_count(&self) -> u64 {
        self.comparison_count
    }

    pub closed spec fn spec_hash_hits(&self) -> u64 {
        self.hash_hits
    }

    /// Nothing has been seen yet.
    pub open spec fn is_fresh(&self) -> bool {
        &&& self.spec_previous_hash() is None
        &&& self.spec_previous_downscaled() is None
        &&& self.spec_previous_full() is None
    }

    /// The remembered previous frame is `current`, in the configured form.
    pub open spec fn remembers(&self, current: Raster) -> bool {
        if self.spec_config().downscale_comparison {
            &&& self.spec_previous_full() is None
            &&& self.spec_previous_downscaled() is Some
            &&& is_key_raster(self.spec_config(), current, self.spec_previous_downscaled()->0)
        } else {
            &&& self.spec_previous_downscaled() is None
            &&& self.spec_previous_full() is Some
            &&& same_raster(self.spec_previous_full()->0, current)
        }
    }

    /// Which way comparing `current` goes from this state.
    pub open spec fn compare_kind(&self, current: Raster) -> DeltaKind {
        if self.is_fresh() {
            DeltaKind::First
        } else if self.spec_config().hash_early_exit && self.spec_previous_hash() is Some
            && self.spec_previous_hash() == frame_hash(self.spec_config(), current) {
            DeltaKind::Unchanged
        } else if self.spec_config().downscale_comparison {
            if self.spec_previous_downscaled() is Some {
                DeltaKind::Measure
            } else {
                DeltaKind::First
            }
        } else if self.spec_previous_full() is Some {
            DeltaKind::Measure
        } else {
            DeltaKind::First
        }
    }

    pub fn new(config: FrameComparisonConfig) -> (r: FrameComparer)
        ensures
            r.spec_config() == config,
            r.is_fresh(),
            r.spec_comparison_count() == 0,
            r.spec_hash_hits() == 0,
    {
        FrameComparer {
            config,
            previous_hash: None,
            previous_image_downscaled: None,
            previous_image_full: None,
            comparison_count: 0,
            hash_hits: 0,
        }
    }

    /// Comparisons made so far.
    pub fn comparison_count(&self) -> (r: u64)
        ensures
            r == self.spec_comparison_count(),
    {
        self.comparison_count
    }

    /// Comparisons settled by the content-hash short-circuit.
    pub fn hash_hits(&self) -> (r: u64)
        ensures
            r == self.spec_hash_hits(),
    {
        self.hash_hits
    }

    /// Size of the downscaled copy of a `width` x `height` frame.
    fn downscale_dims(&self, width: u32, height: u32) -> (r: (u32, u32))
        ensures
            r.0 == scaled_side(width, self.config.downscale_factor),
            r.1 == scaled_side(height, self.config.downscale_factor),
            r.0 <= width || width == 0,
            r.1 <= height || height == 0,
    {
        let f = self.config.downscale_factor;
        if f > 0 {
            let w = if width / f >= 1 {
                width / f
            } else {
                1
            };
            let h = if height / f >= 1 {
                height / f
            } else {
                1
            };
            (w, h)
        } else {
            (width, height)
        }
    }

    /// Nearest-neighbour downscale by the configured factor; a copy when the
    /// downscaled buffer would not fit in memory.
    fn downscale(&self, image: &Raster) -> (r: Raster)
        ensures
            self.config.downscale_comparison ==> is_key_raster(self.config, *image, r),
            !downscale_fits(self.config, *image) ==> same_raster(r, *image),
            downscale_fits(self.config, *image) ==> r.spec_width() == scaled_side(
                image.spec_width(),
                self.config.downscale_factor,
            ),
            downscale_fits(self.config, *image) ==> r.spec_height() == scaled_side(
                image.spec_height(),
                self.config.downscale_factor,
            ),
            downscale_fits(self.config, *image) ==> r.bytes() == nearest_resize_of(

                image.spec_width(),
                image.spec_height(),
                image.bytes(),
                r.spec_width(),
                r.spec_height(),
            ),
    {
        proof {
            use_type_invariant(image);
        }
        let (w, h) = self.downscale_dims(image.width(), image.height());
        assert((w as int) * (h as int) <= u64::MAX) by (nonlinear_arith)
            requires
                w <= u32::MAX,
                h <= u32::MAX,
        ;
        let pixels: u64 = w as u64 * h as u64;
        if pixels > (usize::MAX / 4) as u64 {
            assert(rgba_len(w, h) > usize::MAX) by (nonlinear_arith)
                requires
                    pixels > usize::MAX / 4,
                    pixels == (w as int) * (h as int),
            ;
            return image.copied();
        }
        assert(rgba_len(w, h) == 4 * pixels) by (nonlinear_arith)
            requires
                pixels == (w as int) * (h as int),
        ;
        let bytes = resize_nearest(image, w, h);
        Raster::from_rgba(w, h, bytes).unwrap()
    }

    fn hash_image(&self, key: &Raster) -> (h: u64)
        ensures
            h == content_digest_of(key.bytes()),
    {
        content_digest(key.as_bytes())
    }

    /// Remember `full_image` (in the configured form) and its hash as the previous frame.
    fn update_previous_internal(
        &mut self,
        full_image: &Raster,
        downscaled: Option<Raster>,
        hash: Option<u64>,
    )
        requires
            downscaled matches Some(d) ==> is_key_raster(old(self).config, *full_image, d),
        ensures
            final(self).config == old(self).config,
            final(self).comparison_count == old(self).comparison_count,
            final(self).hash_hits == old(self).hash_hits,
            final(self).previous_hash == hash,
            final(self).remembers(*full_image),
    {
        self.previous_hash = hash;
        if self.config.downscale_comparison {
            let d = match downscaled {
                Some(d) => d,
                None => self.downscale(full_image),
            };
            self.previous_image_downscaled = Some(d);
            self.previous_image_full = None;
        } else {
            self.previous_image_full = Some(full_image.copied());
            self.previous_image_downscaled = None;
        }
    }

    /// Compare a new frame with the previous one and make it the previous one.
    /// A first frame (nothing remembered) gives `First`; with hash short-circuits
    /// on, a frame whose (downscaled) bytes hash as the previous frame's gives
    /// `Unchanged` and is counted as a hash hit; any other frame gives the pair to
    /// score, or `First` when the configured form of the previous frame is missing.
    pub fn compare(&mut self, current_image: &Raster) -> (r: FrameDelta)
        ensures
            final(self).spec_config() == old(self).spec_config(),
            final(self).spec_comparison_count() == saturating_sum(old(self).spec_comparison_count(), 1),
            kind_of(r) == old(self).compare_kind(*current_image),
            final(self).spec_previous_hash() == frame_hash(old(self).spec_config(), *current_image),
            kind_of(r) == DeltaKind::Unchanged ==> final(self).spec_hash_hits() == saturating_sum(
                old(self).spec_hash_hits(),
                1,
            ) && final(self).spec_previous_downscaled() == old(self).spec_previous_downscaled()
                && final(self).spec_previous_full() == old(self).spec_previous_full(),
            kind_of(r) != DeltaKind::Unchanged ==> final(self).spec_hash_hits() == old(
                self,
            ).spec_hash_hits() && final(self).remembers(*current_image),
            r matches FrameDelta::Measure { previous, current } ==> is_key_raster(
                old(self).spec_config(),
                *current_image,
                current,
            ) && Some(previous) == (if old(self).spec_config().downscale_comparison {
                old(self).spec_previous_downscaled()
            } else {
                old(self).spec_previous_full()
            }),
    {
        self.comparison_count = self.comparison_count.saturating_add(1);
        let current_downscaled = if self.config.downscale_comparison {
            Some(self.downscale(current_image))
        } else {
            None
        };
        let current_hash = if self.config.hash_early_exit {
            match &current_downscaled {
                Some(d) => Some(self.hash_image(d)),
                None => Some(self.hash_image(current_image)),
            }
        } else {
            None
        };
        if self.previous_hash.is_none() && self.previous_image_downscaled.is_none()
            && self.previous_image_full.is_none() {
            self.update_previous_internal(current_image, current_downscaled, current_hash);
            return FrameDelta::First;
        }
        if self.config.hash_early_exit {
            if let (Some(prev_hash), Some(curr_hash)) = (self.previous_hash, current_hash) {
                if prev_hash == curr_hash {
                    self.hash_hits = self.hash_hits.saturating_add(1);
                    return FrameDelta::Unchanged;
                }
            }
        }
        if self.config.downscale_comparison {
            let prev = self.previous_image_downscaled.take();
            match (prev, current_downscaled) {
                (Some(p), Some(c)) => {
                    let keep = c.copied();
                    self.update_previous_internal(current_image, Some(keep), current_hash);
                    FrameDelta::Measure { previous: p, current: c }
                },
                (_, cd) => {
                    self.update_previous_internal(current_image, cd, current_hash);
                    FrameDelta::First
                },
            }
        } else {
            let prev = self.previous_image_full.take();
            match prev {
                Some(p) => {
                    let c = current_image.copied();
                    self.update_previous_internal(current_image, None, current_hash);
                    FrameDelta::Measure { previous: p, current: c }
                },
                None => {
                    self.update_previous_internal(current_image, None, current_hash);
                    FrameDelta::First
                },
            }
        }
    }
}

/// First frame: a comparator that has seen nothing reports `First`, that is
/// the maximal difference 1.0, whatever the frame.
pub proof fn lemma_first_frame(c: FrameComparer, current: Raster, score_ppm: Option<u64>)
    requires
        c.is_fresh(),
    ensures
        c.compare_kind(current) == DeltaKind::First,
        delta_ppm(c.compare_kind(current), score_ppm) == MAX_DIFFERENCE_PPM,
{
}

/// Identity short-circuit: with hash short-circuits on, once a comparator has
/// compared `r1` (after which it holds `frame_hash(config, r1)`, as `compare`
/// ensures), comparing a raster with the same size and bytes reports
/// `Unchanged`, that is exactly 0.
pub proof fn lemma_identical_frame_short_circuit(
    c: FrameComparer,
    r1: Raster,
    r2: Raster,
    score_ppm: Option<u64>,
)
    requires
        c.spec_config().hash_early_exit,
        c.spec_previous_hash() == frame_hash(c.spec_config(), r1),
        same_raster(r1, r2),
    ensures
        c.compare_kind(r2) == DeltaKind::Unchanged,
        delta_ppm(c.compare_kind(r2), score_ppm) == 0,
{
    assert(frame_hash(c.spec_config(), r1) == frame_hash(c.spec_config(), r2));
}

} // verus!

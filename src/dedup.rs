//! 64-bit perceptual hashes and the Hamming arithmetic built on them.
use vstd::prelude::*;

use crate::raster::Raster;

verus! {

/// Number of pixels, and of hash bits, in the 8x8 grey thumbnail a hash is computed from.
pub const THUMBNAIL_PIXELS: usize = 64;

/// The 8x8 8-bit grey thumbnail of an RGBA raster: grey conversion followed by a
/// triangle-filter resize, as the imaging library computes it.
pub uninterp spec fn gray_thumbnail_of(width: u32, height: u32, rgba: Seq<u8>) -> Seq<u8>;

/// Sum of the first `n` pixels of a thumbnail.
pub open spec fn pixel_sum(t: Seq<u8>, n: nat) -> nat
    decreases n,
{
    if n == 0 || n > t.len() {
        0
    } else {
        pixel_sum(t, (n - 1) as nat) + t[n - 1] as nat
    }
}

/// Mean intensity of a 64-pixel thumbnail, rounded down.
pub open spec fn thumbnail_mean(t: Seq<u8>) -> nat {
    pixel_sum(t, 64) / 64
}

/// Hash bits of the first `n` pixels: bit `i` is set when pixel `i` is at
/// least `mean`.
pub open spec fn hash_bits(t: Seq<u8>, mean: nat, n: nat) -> u64
    decreases n,
{
    if n == 0 || n > 64 || n > t.len() {
        0
    } else {
        let rest = hash_bits(t, mean, (n - 1) as nat);
        if t[n - 1] as nat >= mean {
            rest | (1u64 << ((n - 1) as u64))
        } else {
            rest
        }
    }
}

/// The perceptual hash of a 64-pixel grey thumbnail.
pub open spec fn thumbnail_hash(t: Seq<u8>) -> u64 {
    hash_bits(t, thumbnail_mean(t), 64)
}

/// The perceptual hash of an RGBA raster.
pub open spec fn phash_of(r: Raster) -> u64 {
    thumbnail_hash(gray_thumbnail_of(r.spec_width(), r.spec_height(), r.bytes()))
}

/// Relies on image's `DynamicImage::to_luma8` and `imageops::resize` (triangle
/// filter): the grey 8x8 thumbnail, 64 bytes, that depends on the raster alone.
#[verifier::external_body]
fn gray_thumbnail(r: &Raster) -> (t: Vec<u8>)
    requires
        r.wf(),
    ensures
        t@ == gray_thumbnail_of(r.spec_width(), r.spec_height(), r.bytes()),
        t@.len() == 64,
{
    let rgba = image::RgbaImage::from_raw(r.width(), r.height(), r.as_bytes().clone()).unwrap();
    let gray = image::DynamicImage::ImageRgba8(rgba).to_luma8();
    image::imageops::resize(&gray, 8, 8, image::imageops::FilterType::Triangle).into_raw()
}

/// Perceptual hash of a 64-pixel grey thumbnail: bit `i` is set iff pixel `i`
/// is at least the mean intensity.
pub fn thumbnail_phash(t: &Vec<u8>) -> (h: u64)
    requires
        t@.len() == 64,
    ensures
        h == thumbnail_hash(t@),
{
    let mut sum: u64 = 0;
    let mut i: usize = 0;
    while i < THUMBNAIL_PIXELS
        invariant
            t@.len() == 64,
            i <= 64,
            sum == pixel_sum(t@, i as nat),
            sum <= 255 * i,
        decreases 64 - i,
    {
        sum = sum + t[i] as u64;
        i = i + 1;
    }
    let mean: u8 = (sum / 64) as u8;
    let mut bits: u64 = 0;
    let mut j: usize = 0;
    while j < THUMBNAIL_PIXELS
        invariant
            t@.len() == 64,
            j <= 64,
            mean as nat == thumbnail_mean(t@),
            bits == hash_bits(t@, mean as nat, j as nat),
        decreases 64 - j,
    {
        if t[j] >= mean {
            bits = bits | (1u64 << (j as u64));
        }
        j = j + 1;
    }
    bits
}

/// Compute the 64-bit perceptual hash of a raster: grey 8x8 thumbnail, mean
/// intensity, one bit per pixel at or above the mean, in row-major order.
pub fn phash64(image: &Raster) -> (h: u64)
    ensures
        h == phash_of(*image),
{
    proof {
        use_type_invariant(image);
    }
    let t = gray_thumbnail(image);
    thumbnail_phash(&t)
}

/// Bit `k` of `x`, as 0 or 1.
pub open spec fn bit_of(x: u64, k: nat) -> nat {
    if k < 64 && (x >> (k as u64)) & 1 == 1 {
        1
    } else {
        0
    }
}

/// Number of one bits among the lowest `n` bits of `x`.
pub open spec fn ones_below(x: u64, n: nat) -> nat
    decreases n,
{
    if n == 0 {
        0
    } else {
        ones_below(x, (n - 1) as nat) + bit_of(x, (n - 1) as nat)
    }
}

/// Population count of a 64-bit word.
pub open spec fn popcount(x: u64) -> nat {
    ones_below(x, 64)
}

/// Hamming distance of two hashes: the population count of their XOR,
/// taken over the 64-bit pattern.
pub open spec fn hamming(a: i64, b: i64) -> nat {
    popcount((a as u64) ^ (b as u64))
}

/// The top 16 bits of a hash, read as a signed 16-bit value.
pub open spec fn prefix_of(phash: i64) -> i16 {
    (((phash as u64) >> 48u64) as u16) as i16
}

/// When every one of the lowest `n` bits of `x` equals `v`, exactly `n * v` of them are set.
proof fn lemma_ones_below_uniform(x: u64, n: nat, v: nat)
    requires
        forall|k: nat| k < n ==> #[trigger] bit_of(x, k) == v,
    ensures
        ones_below(x, n) == n * v,
    decreases n,
{
    if n > 0 {
        let m = (n - 1) as nat;
        lemma_ones_below_uniform(x, m, v);
        assert(bit_of(x, m) == v);
        assert(n * v == m * v + v) by (nonlinear_arith)
            requires
                n == m + 1,
        ;
    } else {
        assert(n * v == 0) by (nonlinear_arith)
            requires
                n == 0,
        ;
    }
}

/// A word with the single bit `k` set has one bit among any prefix that covers `k`.
proof fn lemma_ones_below_single(x: u64, k: nat, n: nat)
    requires
        n <= 64,
        k < 64,
        forall|j: nat| j < 64 ==> #[trigger] bit_of(x, j) == (if j == k { 1nat } else { 0nat }),
    ensures
        ones_below(x, n) == (if k < n { 1nat } else { 0nat }),
    decreases n,
{
    if n > 0 {
        lemma_ones_below_single(x, k, (n - 1) as nat);
        assert(bit_of(x, (n - 1) as nat) == (if (n - 1) as nat == k { 1nat } else { 0nat }));
    }
}

/// Counts the one bits of `x`.
fn count_ones(x: u64) -> (r: u32)
    ensures
        r == popcount(x),
        r <= 64,
{
    let mut c: u32 = 0;
    let mut i: u32 = 0;
    while i < 64
        invariant
            i <= 64,
            c <= i,
            c == ones_below(x, i as nat),
        decreases 64 - i,
    {
        if (x >> i) & 1 == 1 {
            c = c + 1;
        }
        i = i + 1;
    }
    c
}

/// Hamming distance between two 64-bit perceptual hashes.
pub fn hamming_distance(a: i64, b: i64) -> (r: u32)
    ensures
        r == hamming(a, b),
        r <= 64,
{
    count_ones((a as u64) ^ (b as u64))
}

/// Extract the top-16-bit prefix used for fast candidate filtering.
pub fn hash_prefix(phash: i64) -> (r: i16)
    ensures
        r == prefix_of(phash),
        (r as u16) as u64 == (phash as u64) >> 48u64,
{
    let r = (((phash as u64) >> 48u64) as u16) as i16;
    assert((((((phash as u64) >> 48u64) as u16) as i16) as u16) as u64 == (phash as u64) >> 48u64)
        by (bit_vector);
    r
}

/// Whether two hashes lie within `threshold` bits of each other.
pub fn is_similar(a: i64, b: i64, threshold: u32) -> (r: bool)
    ensures
        r == (hamming(a, b) <= threshold),
{
    hamming_distance(a, b) <= threshold
}

/// A hash is at distance 0 from itself.
pub proof fn lemma_hamming_self(h: i64)
    ensures
        hamming(h, h) == 0,
{
    let x = (h as u64) ^ (h as u64);
    assert(x == 0) by (bit_vector)
        requires
            x == (h as u64) ^ (h as u64),
    ;
    assert forall|k: nat| k < 64 implies #[trigger] bit_of(x, k) == 0 by {
        let kk = k as u64;
        assert((0u64 >> kk) & 1 == 0) by (bit_vector);
    }
    lemma_ones_below_uniform(x, 64, 0);
}

/// Hamming distance does not depend on the order of its arguments.
pub proof fn lemma_hamming_symmetric(a: i64, b: i64)
    ensures
        hamming(a, b) == hamming(b, a),
{
    assert((a as u64) ^ (b as u64) == (b as u64) ^ (a as u64)) by (bit_vector);
}

/// A hash and its bitwise complement differ in all 64 bits.
pub proof fn lemma_hamming_complement(h: i64)
    ensures
        hamming(h, !h) == 64,
{
    let x = (h as u64) ^ ((!h) as u64);
    assert(x == 0xFFFF_FFFF_FFFF_FFFFu64) by (bit_vector)
        requires
            x == (h as u64) ^ ((!h) as u64),
    ;
    assert forall|k: nat| k < 64 implies #[trigger] bit_of(x, k) == 1 by {
        let kk = k as u64;
        assert(kk < 64 ==> (0xFFFF_FFFF_FFFF_FFFFu64 >> kk) & 1 == 1) by (bit_vector);
    }
    lemma_ones_below_uniform(x, 64, 1);
}

/// Flipping a single bit of a hash moves it by distance 1.
pub proof fn lemma_hamming_one_bit(h: i64, k: u64)
    requires
        k < 64,
    ensures
        hamming(h, h ^ ((1u64 << k) as i64)) == 1,
{
    let x = (h as u64) ^ ((h ^ ((1u64 << k) as i64)) as u64);
    assert(x == 1u64 << k) by (bit_vector)
        requires
            x == (h as u64) ^ ((h ^ ((1u64 << k) as i64)) as u64),
            k < 64,
    ;
    assert forall|j: nat| j < 64 implies #[trigger] bit_of(x, j) == (if j == k as nat { 1nat } else { 0nat }) by {
        let jj = j as u64;
        assert(jj < 64 && k < 64 ==> (((1u64 << k) >> jj) & 1 == 1 <==> jj == k)) by (bit_vector);
    }
    lemma_ones_below_single(x, k as nat, 64);
}

/// The perceptual hash depends on the pixels alone: equal rasters hash alike.
pub proof fn lemma_phash_deterministic(a: Raster, b: Raster)
    requires
        a.spec_width() == b.spec_width(),
        a.spec_height() == b.spec_height(),
        a.bytes() == b.bytes(),
    ensures
        phash_of(a) == phash_of(b),
{
}

} // verus!

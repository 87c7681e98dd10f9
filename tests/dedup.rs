use recall::dedup::{hamming_distance, hash_prefix, is_similar, phash64, thumbnail_phash};
use recall::raster::Raster;

#[test]
fn identical_hashes() {
    let hash = 0x123456789ABCDEF0i64;
    assert_eq!(hamming_distance(hash, hash), 0);
}

#[test]
fn one_bit_difference() {
    let a = 0x0000000000000000i64;
    let b = 0x0000000000000001i64;
    assert_eq!(hamming_distance(a, b), 1);
}

#[test]
fn prefix_extraction() {
    let hash = 0xABCD_1234_5678_9EF0u64 as i64;
    assert_eq!(hash_prefix(hash), 0xABCDu16 as i16);
}

#[test]
fn similarity_threshold() {
    let a = 0x0000000000000000i64;
    let b = 0x00000000000003FFi64; // 10 bits different
    assert!(is_similar(a, b, 10));
    assert!(!is_similar(a, b, 9));
}

#[test]
fn phash_identical_images() {
    let img = Raster::filled(100, 100, [0, 0, 0, 255]);
    let h1 = phash64(&img);
    let h2 = phash64(&img);
    assert_eq!(h1, h2);
}

#[test]
fn hamming_examples() {
    assert_eq!(hamming_distance(0, -1), 64);
    assert_eq!(hamming_distance(0xF0, 0x0F), 8);
    assert_eq!(hamming_distance(-1, -1), 0);
    assert_eq!(hamming_distance(1, 2), 2);
}

#[test]
fn prefix_of_negative_hash_keeps_top_bits() {
    assert_eq!(hash_prefix(-1), -1);
    assert_eq!(hash_prefix(0x7FFF_0000_0000_0000), 0x7FFF);
    assert_eq!(hash_prefix(0x0000_FFFF_FFFF_FFFF), 0);
}

#[test]
fn thumbnail_hash_sets_bits_at_or_above_mean() {
    // Pixels 0..63 hold their index: mean is 31, so pixels 31..63 are set.
    let t: Vec<u8> = (0u8..64).collect();
    assert_eq!(thumbnail_phash(&t), 0xFFFF_FFFF_8000_0000);
    // A flat thumbnail sets every bit.
    assert_eq!(thumbnail_phash(&vec![200u8; 64]), u64::MAX);
    // One bright pixel: mean 3 (255 / 64), only that pixel reaches it.
    let mut one = vec![0u8; 64];
    one[5] = 255;
    assert_eq!(thumbnail_phash(&one), 1u64 << 5);
}

#[test]
fn phash_separates_inverted_halves() {
    let a = halves(64, 64, false);
    let b = halves(64, 64, true);
    let ha = phash64(&a);
    let hb = phash64(&b);
    assert_ne!(ha, hb);
    assert!(hamming_distance(ha as i64, hb as i64) > 10);
}

fn halves(w: u32, h: u32, inverted: bool) -> Raster {
    let mut bytes = Vec::new();
    for _y in 0..h {
        for x in 0..w {
            let left = x < w / 2;
            let v = if left != inverted { 0u8 } else { 255u8 };
            bytes.extend_from_slice(&[v, v, v, 255]);
        }
    }
    Raster::from_rgba(w, h, bytes).unwrap()
}

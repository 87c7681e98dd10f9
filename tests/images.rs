use recall::images::{
    cleanup_cutoff, date_dir_name, encode_jpeg, image_ref_for, is_date_dir_name, plan_cleanup,
    sorts_before, DirEntryInfo, ImageStorage, DEFAULT_JPEG_QUALITY,
};
use recall::raster::Raster;

fn make_test_image(width: u32, height: u32) -> Raster {
    let mut bytes = Vec::new();
    for y in 0..height {
        for x in 0..width {
            bytes.extend_from_slice(&[(x % 256) as u8, (y % 256) as u8, 128, 255]);
        }
    }
    Raster::from_rgba(width, height, bytes).unwrap()
}

fn now_millis() -> i64 {
    chrono::Utc::now().timestamp_millis()
}

#[test]
fn save_and_load_roundtrip() {
    let storage = ImageStorage::new("/tmp/frames".to_string());
    let img = make_test_image(64, 64);
    let ts = now_millis();

    let plan = storage.plan_save(ts).unwrap();
    let bytes = encode_jpeg(&img, 85).unwrap();
    assert!(bytes.len() > 0, "Saved file should be non-empty");
    assert!(plan.image_ref.ends_with(".jpg"));

    let loaded = image::load_from_memory(&bytes).unwrap();
    assert_eq!(loaded.width(), 64);
    assert_eq!(loaded.height(), 64);
}

#[test]
fn date_based_directory_structure() {
    let storage = ImageStorage::new("/tmp/frames".to_string());
    let ts = now_millis();

    let plan = storage.plan_save(ts).unwrap();
    let date_part = chrono::DateTime::from_timestamp_millis(ts).unwrap().format("%Y-%m-%d").to_string();
    assert!(
        plan.image_ref.starts_with(&date_part),
        "image_ref should start with date: got {}",
        plan.image_ref
    );
    assert_eq!(plan.dir_name, date_part);
}

#[test]
fn multiple_saves_same_timestamp() {
    let storage = ImageStorage::new("/tmp/frames".to_string());
    let ts = now_millis();

    let ref1 = storage.plan_save(ts).unwrap().image_ref;
    let ref2 = storage.plan_save(ts).unwrap().image_ref;
    assert_ne!(ref1, ref2, "Each save should produce a unique filename");
}

#[test]
fn cleanup_removes_old_dirs() {
    let today = date_dir_name(now_millis()).unwrap();
    let entries = vec![
        DirEntryInfo { name: "2020-01-01".to_string(), is_dir: true, file_count: 1 },
        DirEntryInfo { name: today.clone(), is_dir: true, file_count: 1 },
    ];
    let cutoff = cleanup_cutoff(now_millis(), 1).unwrap();
    let plan = plan_cleanup(&entries, &cutoff);
    assert!(plan.files_removed >= 1, "Should have removed at least 1 file");
    assert!(plan.remove.contains(&0), "Old dir should be deleted");
    assert!(!plan.remove.contains(&1), "Recent dir should survive");
}

#[test]
fn image_ref_layout() {
    let r = image_ref_for(2024, 3, 7, 0x0123_4567_89ab_cdef_0011_2233_4455_6677);
    assert_eq!(r, "2024-03-07/01234567-89ab-cdef-0011-223344556677.jpg");
    let z = image_ref_for(5, 12, 31, 0);
    assert_eq!(z, "0005-12-31/00000000-0000-0000-0000-000000000000.jpg");
    let u = uuid::Uuid::from_u128(0xfedc_ba98_7654_3210_fedc_ba98_7654_3210);
    assert_eq!(
        image_ref_for(2030, 1, 1, u.as_u128()),
        format!("2030-01-01/{}.jpg", u.hyphenated())
    );
}

#[test]
fn date_names_in_utc() {
    assert_eq!(date_dir_name(0).unwrap(), "1970-01-01");
    assert_eq!(date_dir_name(86_400_000 - 1).unwrap(), "1970-01-01");
    assert_eq!(date_dir_name(1_700_000_000_000).unwrap(), "2023-11-14");
    assert_eq!(date_dir_name(-1).unwrap(), "1969-12-31");
    // Year 10000 does not fit the four-digit layout.
    assert_eq!(date_dir_name(253_402_300_800_000), None);
}

#[test]
fn cleanup_cutoff_subtracts_days() {
    assert_eq!(cleanup_cutoff(1_700_000_000_000, 30).unwrap(), "2023-10-15");
    assert_eq!(cleanup_cutoff(1_700_000_000_000, 0).unwrap(), "2023-11-14");
    assert_eq!(cleanup_cutoff(i64::MIN, 1), None);
}

#[test]
fn date_dir_shapes() {
    assert!(is_date_dir_name("2020-01-01"));
    assert!(!is_date_dir_name("2020-1-01x"));
    assert!(!is_date_dir_name("thumbnails"));
    assert!(!is_date_dir_name("2020/01/01"));
    assert!(!is_date_dir_name("2020-01-011"));
}

#[test]
fn lexicographic_order() {
    assert!(sorts_before("2020-01-01", "2020-01-02"));
    assert!(!sorts_before("2020-01-02", "2020-01-01"));
    assert!(!sorts_before("2020-01-01", "2020-01-01"));
    assert!(sorts_before("2020", "2020-01-01"));
    assert!(sorts_before("", "a"));
}

#[test]
fn cleanup_skips_files_and_other_names() {
    let entries = vec![
        DirEntryInfo { name: "2019-05-05".to_string(), is_dir: false, file_count: 0 },
        DirEntryInfo { name: "old-stuff!".to_string(), is_dir: true, file_count: 9 },
        DirEntryInfo { name: "2019-05-05".to_string(), is_dir: true, file_count: 4 },
        DirEntryInfo { name: "2021-01-01".to_string(), is_dir: true, file_count: 3 },
        DirEntryInfo { name: "2018-12-31".to_string(), is_dir: true, file_count: 5 },
    ];
    let plan = plan_cleanup(&entries, "2020-06-01");
    assert_eq!(plan.remove, vec![2, 4]);
    assert_eq!(plan.files_removed, 9);
}

#[test]
fn jpeg_quality_changes_output() {
    let img = make_test_image(32, 32);
    let low = encode_jpeg(&img, 10).unwrap();
    let high = encode_jpeg(&img, DEFAULT_JPEG_QUALITY).unwrap();
    assert!(low.starts_with(&[0xFF, 0xD8]));
    assert_ne!(low, high);
}

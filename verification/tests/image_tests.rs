use camera_ftp_companion::image_utils::{
    build_orientation_app1, has_exif_app1, inject_orientation_exif, is_raw_file, is_supported_image,
};
use camera_ftp_companion::jpeg::{find_largest_jpeg, is_valid_jpeg};
use camera_ftp_companion::image_preview::{
    apply_raw_orientation, content_type_for, needs_raw_orientation, raw_size_allowed, ImagePreviewCache,
    MAX_CACHE_ENTRIES, MAX_RAW_SIZE,
};

#[test]
fn test_is_raw_file() {
    assert!(is_raw_file("photo.nef"));
    assert!(is_raw_file("photo.CR3"));
    assert!(is_raw_file("photo.ARW"));
    assert!(is_raw_file("photo.dng"));
    assert!(!is_raw_file("photo.jpg"));
    assert!(!is_raw_file("photo.jpeg"));
    assert!(!is_raw_file("photo.png"));
    assert!(!is_raw_file("photo"));
    assert!(!is_raw_file("photo.txt"));
}

#[test]
fn test_is_supported_image() {
    assert!(is_supported_image("photo.jpg"));
    assert!(is_supported_image("photo.JPEG"));
    assert!(is_supported_image("photo.heif"));
    assert!(is_supported_image("photo.nef"));
    assert!(is_supported_image("photo.cr2"));
    assert!(!is_supported_image("photo.png"));
    assert!(!is_supported_image("photo.mp4"));
    assert!(!is_supported_image("photo.txt"));
}

#[test]
fn test_has_exif_app1() {
    let jpeg_with_exif = vec![
        0xFF, 0xD8, 0xFF, 0xE1, 0x00, 0x0A,
        b'E', b'x', b'i', b'f', 0x00, 0x00, 0x00, 0x00,
    ];
    assert!(has_exif_app1(&jpeg_with_exif));

    let jpeg_with_xmp = vec![
        0xFF, 0xD8, 0xFF, 0xE1, 0x00, 0x04,
        b'h', b't', b'm', b'l',
    ];
    assert!(!has_exif_app1(&jpeg_with_xmp));

    let jpeg_without_app1 = vec![0xFF, 0xD8, 0xFF, 0xE0, 0x00, 0x04, 0x00, 0x00];
    assert!(!has_exif_app1(&jpeg_without_app1));

    let too_short = vec![0xFF, 0xD8];
    assert!(!has_exif_app1(&too_short));

    let not_jpeg = vec![0x89, 0x50, 0x4E, 0x47];
    assert!(!has_exif_app1(&not_jpeg));
}

#[test]
fn test_build_orientation_app1_length() {
    for orientation in [1u8, 2, 3, 4, 5, 6, 7, 8] {
        let app1 = build_orientation_app1(orientation);
        assert_eq!(app1.len(), 36, "APP1 segment should be 36 bytes for orientation {}", orientation);
    }
}

#[test]
fn test_inject_orientation_exif_preserves_original() {
    let original = vec![0xFF, 0xD8, 0xFF, 0xE0, 0x00, 0x02, 0xAA, 0xBB];

    let result = inject_orientation_exif(original.clone(), 6);

    assert_eq!(&result[0..2], &[0xFF, 0xD8]);
    assert_eq!(&result[2..4], &[0xFF, 0xE1]);
    let app1_len = 36;
    assert_eq!(&result[2 + app1_len..], &original[2..]);
    assert_eq!(result.len(), original.len() + app1_len);
}

#[test]
fn build_orientation_app1_has_correct_structure() {
    let app1 = build_orientation_app1(8);
    assert_eq!(app1[0], 0xFF);
    assert_eq!(app1[1], 0xE1);
    assert_eq!(app1[2], 0x00);
    assert_eq!(app1[3], 0x22);
    assert_eq!(&app1[4..10], b"Exif\x00\x00");
    assert_eq!(&app1[10..12], b"II");
    assert_eq!(u16::from_le_bytes([app1[12], app1[13]]), 42);
    assert_eq!(u16::from_le_bytes([app1[18], app1[19]]), 1);
    assert_eq!(u16::from_le_bytes([app1[20], app1[21]]), 0x0112);
    assert_eq!(u16::from_le_bytes([app1[22], app1[23]]), 3);
    assert_eq!(u32::from_le_bytes([app1[24], app1[25], app1[26], app1[27]]), 1);
    assert_eq!(app1[28], 8);
}

#[test]
fn inject_inserts_after_soi() {
    let jpeg = vec![0xFF, 0xD8, 0xFF, 0xDB, 0x00, 0x01, 0x00];
    let result = inject_orientation_exif(jpeg.clone(), 6);
    assert_eq!(&result[..2], &[0xFF, 0xD8]);
    assert_eq!(&result[2..4], &[0xFF, 0xE1]);
    let app1_len = u16::from_be_bytes([result[4], result[5]]) as usize;
    let app1_total = 2 + app1_len;
    assert_eq!(&result[2 + app1_total..2 + app1_total + 2], &[0xFF, 0xDB]);
}

#[test]
fn has_exif_app1_detects_presence() {
    let mut with_exif = vec![0xFF, 0xD8, 0xFF, 0xE1, 0x00, 0x08];
    with_exif.extend(b"Exif\x00\x00");
    with_exif.extend(vec![0xFF, 0xD9]);
    assert!(has_exif_app1(&with_exif));

    let without_exif = vec![0xFF, 0xD8, 0xFF, 0xDB, 0x00, 0x01, 0x00];
    assert!(!has_exif_app1(&without_exif));
}

#[test]
fn find_largest_jpeg_returns_largest() {
    let small: Vec<u8> = vec![0xFF, 0xD8, 0xFF, 0xE0, 0x00, 0x04, 0x00, 0x00, 0xFF, 0xD9];
    let large: Vec<u8> = vec![
        0xFF, 0xD8, 0xFF, 0xDB, 0x00, 0x06, 0x01, 0x02, 0x03, 0x04, 0xFF, 0xD9,
    ];

    let mut data = Vec::new();
    data.extend_from_slice(&small);
    data.extend_from_slice(&[0xDE, 0xAD]);
    data.extend_from_slice(&large);

    let result = find_largest_jpeg(&data).expect("should find a JPEG");
    assert_eq!(result.len(), 12);
    assert_eq!(result, large);
}

#[test]
fn find_largest_jpeg_returns_none_for_no_jpeg() {
    let data: Vec<u8> = vec![0x00, 0x01, 0x02, 0x03, 0x04, 0x05];
    assert!(find_largest_jpeg(&data).is_none());
}

#[test]
fn find_largest_jpeg_returns_none_for_empty() {
    assert!(find_largest_jpeg(&[]).is_none());
}

#[test]
fn find_largest_jpeg_handles_soi_without_eoi() {
    let data: Vec<u8> = vec![0xFF, 0xD8, 0x00, 0x01, 0x02, 0x03];
    assert!(find_largest_jpeg(&data).is_none());
}

#[test]
fn content_type_for_jpeg_extensions() {
    assert_eq!(content_type_for("photo.jpg"), "image/jpeg");
    assert_eq!(content_type_for("photo.jpeg"), "image/jpeg");
    assert_eq!(content_type_for("photo.JPG"), "image/jpeg");
}

#[test]
fn content_type_for_heif_extensions() {
    assert_eq!(content_type_for("photo.heif"), "image/heic");
    assert_eq!(content_type_for("photo.hif"), "image/heic");
    assert_eq!(content_type_for("photo.heic"), "image/heic");
}

#[test]
fn content_type_for_unknown_defaults_to_octet_stream() {
    assert_eq!(content_type_for("photo.nef"), "application/octet-stream");
    assert_eq!(content_type_for("photo.cr2"), "application/octet-stream");
    assert_eq!(content_type_for("photo.png"), "application/octet-stream");
    assert_eq!(content_type_for("photo"), "application/octet-stream");
}

#[test]
fn is_valid_jpeg_needs_soi_and_eoi() {
    assert!(is_valid_jpeg(&[0xFF, 0xD8, 0xFF, 0x00, 0xFF, 0xD9]));
    assert!(!is_valid_jpeg(&[0xFF, 0xD8, 0x00, 0x00, 0xFF, 0xD9]));
    assert!(!is_valid_jpeg(&[0xFF, 0xD8, 0xFF, 0xD9]));
    assert!(!is_valid_jpeg(&[0xFF, 0xD8, 0xFF, 0xDB, 0x00, 0x09, 0x00, 0xFF, 0xD9]));
}

#[test]
fn find_largest_jpeg_keeps_first_of_equal_sizes() {
    let a: Vec<u8> = vec![0xFF, 0xD8, 0xFF, 0x01, 0xFF, 0x00, 0xFF, 0xD9];
    let b: Vec<u8> = vec![0xFF, 0xD8, 0xFF, 0x00, 0xFF, 0x01, 0xFF, 0xD9];
    let mut data = a.clone();
    data.extend_from_slice(&b);
    assert_eq!(find_largest_jpeg(&data), Some(a));
}

#[test]
fn raw_size_limit_is_inclusive() {
    assert!(raw_size_allowed(MAX_RAW_SIZE));
    assert!(!raw_size_allowed(MAX_RAW_SIZE + 1));
}

#[test]
fn raw_orientation_injected_only_without_exif() {
    let plain = vec![0xFF, 0xD8, 0xFF, 0xDB, 0x00, 0x01, 0x00];
    assert!(needs_raw_orientation(&plain));
    let oriented = apply_raw_orientation(plain.clone(), Some(6));
    assert_eq!(oriented.len(), plain.len() + 36);
    assert_eq!(oriented[2 + 28], 6);
    assert_eq!(apply_raw_orientation(plain.clone(), None), plain);
    assert_eq!(apply_raw_orientation(plain.clone(), Some(1)), plain);
    assert!(!needs_raw_orientation(&oriented));
    assert_eq!(apply_raw_orientation(oriented.clone(), Some(3)), oriented);
}

#[test]
fn preview_cache_stores_and_evicts_oldest() {
    let mut cache: ImagePreviewCache<u32> = ImagePreviewCache::new();
    for i in 0..(MAX_CACHE_ENTRIES as u32 + 10) {
        cache.store(format!("f{}.jpg", i), i);
    }
    assert_eq!(cache.len(), MAX_CACHE_ENTRIES);
    assert!(cache.lookup(&"f0.jpg".to_string()).is_none());
    assert_eq!(cache.lookup(&format!("f{}.jpg", MAX_CACHE_ENTRIES as u32 + 9)), Some(&(MAX_CACHE_ENTRIES as u32 + 9)));
    cache.invalidate(&format!("f{}.jpg", MAX_CACHE_ENTRIES as u32 + 9));
    assert!(cache.lookup(&format!("f{}.jpg", MAX_CACHE_ENTRIES as u32 + 9)).is_none());
    assert_eq!(cache.len(), MAX_CACHE_ENTRIES - 1);
}

#[test]
fn injected_orientation_is_detected() {
    let jpeg = vec![0xFF, 0xD8, 0xFF, 0xDB, 0x00, 0x04, 0x00, 0x00, 0xFF, 0xD9];
    assert!(!has_exif_app1(&jpeg));
    let with = inject_orientation_exif(jpeg, 6);
    assert!(has_exif_app1(&with));
}

#[test]
fn found_preview_is_a_marked_valid_segment() {
    let mut data = vec![0x00, 0x11, 0x22];
    let seg = vec![0xFF, 0xD8, 0xFF, 0xDB, 0x00, 0x04, 0x01, 0x02, 0xFF, 0xD9];
    data.extend_from_slice(&seg);
    data.extend_from_slice(&[0x33, 0x44]);
    let found = find_largest_jpeg(&data).unwrap();
    assert_eq!(found, seg);
    assert!(found.len() >= 8);
    assert!(is_valid_jpeg(&found));
    assert_eq!(&found[..2], &[0xFF, 0xD8]);
    assert_eq!(&found[found.len() - 2..], &[0xFF, 0xD9]);
}

#[test]
fn invalidate_keeps_other_entries_and_their_order() {
    let mut cache: ImagePreviewCache<u32> = ImagePreviewCache::new();
    for i in 0..(MAX_CACHE_ENTRIES as u32) {
        cache.store(format!("f{}.jpg", i), i);
    }
    cache.invalidate(&"f1.jpg".to_string());
    cache.invalidate(&"absent.jpg".to_string());
    assert_eq!(cache.len(), MAX_CACHE_ENTRIES - 1);
    for i in 0..(MAX_CACHE_ENTRIES as u32) {
        if i != 1 {
            assert_eq!(cache.lookup(&format!("f{}.jpg", i)), Some(&i));
        }
    }
    cache.store("new1.jpg".to_string(), 1000);
    cache.store("new2.jpg".to_string(), 1001);
    assert!(cache.lookup(&"f0.jpg".to_string()).is_none());
    assert_eq!(cache.lookup(&"f2.jpg".to_string()), Some(&2));
    assert_eq!(cache.lookup(&"new2.jpg".to_string()), Some(&1001));
}

use camera_ftp_companion::exif_info::{exif_info_from_fields, format_focal_length};

#[test]
fn exif_summary_only_when_something_was_read() {
    assert!(exif_info_from_fields(None, None, None, None, None, None).is_none());
    let info = exif_info_from_fields(Some(200), None, None, None, None, Some(6)).unwrap();
    assert_eq!(info.iso, Some(200));
    assert_eq!(info.orientation, Some(6));
}

#[test]
fn prefers_35mm_equivalent() {
    let result = format_focal_length(Some(50), Some((35, 1)));
    assert_eq!(result, Some("50mm".to_string()));
}

#[test]
fn falls_back_to_raw_when_no_35mm() {
    let result = format_focal_length(None, Some((23, 1)));
    assert_eq!(result, Some("23mm".to_string()));
}

#[test]
fn raw_focal_rounds() {
    let result = format_focal_length(None, Some((5001, 100)));
    assert_eq!(result, Some("50mm".to_string()));
}

#[test]
fn returns_none_when_both_missing() {
    let result = format_focal_length(None, None);
    assert_eq!(result, None);
}

#[test]
fn ignores_raw_when_35mm_present() {
    let result = format_focal_length(Some(85), Some((24, 1)));
    assert_eq!(result, Some("85mm".to_string()));
}

#[test]
fn focal_ratio_rounding_edges() {
    assert_eq!(format_focal_length(None, Some((45, 2))), Some("23mm".to_string()));
    assert_eq!(format_focal_length(None, Some((449, 20))), Some("22mm".to_string()));
    assert_eq!(format_focal_length(None, Some((u32::MAX, 1))), Some("4294967295mm".to_string()));
    assert_eq!(format_focal_length(None, Some((7, 0))), Some("4294967295mm".to_string()));
    assert_eq!(format_focal_length(None, Some((0, 0))), Some("0mm".to_string()));
}

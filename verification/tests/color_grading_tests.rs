use camera_ftp_companion::color_grading::{all_presets, color_grading_output_name, find_preset, RaResult};

#[test]
fn ra_result_is_ok_only_for_ok_variant() {
    assert!(RaResult::Success.is_ok());

    assert!(!RaResult::ErrUnknown.is_ok());
    assert!(!RaResult::ErrFileNotFound.is_ok());
    assert!(!RaResult::ErrDecodeFailed.is_ok());
    assert!(!RaResult::ErrInvalidParam.is_ok());
    assert!(!RaResult::ErrLogUnsupported.is_ok());
    assert!(!RaResult::ErrLutLoadFailed.is_ok());
    assert!(!RaResult::ErrWriteFailed.is_ok());
    assert!(!RaResult::ErrNoLensProfile.is_ok());
    assert!(!RaResult::ErrOutOfMemory.is_ok());
}

#[test]
fn ra_result_description_returns_non_empty() {
    let variants = [
        RaResult::Success,
        RaResult::ErrUnknown,
        RaResult::ErrFileNotFound,
        RaResult::ErrDecodeFailed,
        RaResult::ErrInvalidParam,
        RaResult::ErrLogUnsupported,
        RaResult::ErrLutLoadFailed,
        RaResult::ErrWriteFailed,
        RaResult::ErrNoLensProfile,
        RaResult::ErrOutOfMemory,
    ];

    let descriptions: Vec<&str> = variants.iter().map(|v| v.description()).collect();

    for desc in &descriptions {
        assert!(!desc.is_empty(), "Description should not be empty");
    }

    for i in 0..descriptions.len() {
        for j in (i + 1)..descriptions.len() {
            assert_ne!(
                descriptions[i], descriptions[j],
                "Descriptions for {:?} and {:?} should differ",
                variants[i], variants[j]
            );
        }
    }
}

#[test]
fn ra_result_repr_values() {
    assert_eq!(RaResult::Success.code(), 0);
    assert_eq!(RaResult::ErrUnknown.code(), -1);
    assert_eq!(RaResult::ErrFileNotFound.code(), -2);
    assert_eq!(RaResult::ErrDecodeFailed.code(), -3);
}

#[test]
fn ra_result_from_code_round_trips() {
    for code in -9..=0 {
        assert_eq!(RaResult::from_code(code).code(), code);
    }
    assert_eq!(RaResult::from_code(7), RaResult::ErrUnknown);
    assert_eq!(RaResult::from_code(-10), RaResult::ErrUnknown);
}

#[test]
fn find_existing_preset() {
    let p = find_preset("fujifilm-classic-neg").unwrap();
    assert_eq!(p.display_name, "Fujifilm CLASSIC Neg");
    assert_eq!(p.log_space, "V-Log");
}

#[test]
fn find_nonexistent_returns_none() {
    assert!(find_preset("nonexistent").is_none());
}

#[test]
fn all_presets_have_unique_ids() {
    let presets = all_presets();
    let ids: Vec<&str> = presets.iter().map(|p| p.id.as_str()).collect();
    let unique: std::collections::HashSet<&str> = ids.iter().copied().collect();
    assert_eq!(ids.len(), unique.len());
    assert_eq!(ids.len(), 20);
}

#[test]
fn graded_image_names() {
    assert_eq!(
        color_grading_output_name("photos/IMG_001.NEF", "fujifilm-provia", "20240101_120000"),
        "IMG_001_fujifilm-provia_20240101_120000.jpg"
    );
    assert_eq!(
        color_grading_output_name("my photos/DSC 1234.ARW", "sony-cine", "t"),
        "DSC 1234_sony-cine_t.jpg"
    );
    assert_eq!(color_grading_output_name("/", "x", "t"), "output_x_t.jpg");
}

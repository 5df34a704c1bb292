use camera_ftp_companion::ai_edit::{
    display_file_name, edit_credentials, edit_prompt, edited_image_name, edited_image_stem, provider_outdated,
    should_auto_edit, AiEditProgressEvent, WorkerState, AIEDIT_SUBDIR, AUTO_QUEUE_CAPACITY, MANUAL_QUEUE_CAPACITY,
};
use camera_ftp_companion::config::{AiEditConfig, ProviderConfig, SeedEditConfig};
use camera_ftp_companion::error::AppError;
use camera_ftp_companion::ai_edit::{
    api_error, api_raw_error, decode_inline_image, edited_image_source, image_data_uri, EditedImage, PreparedImage,
    SeedEditImageData,
};

#[test]
fn constants_are_reasonable() {
    assert_eq!(AUTO_QUEUE_CAPACITY, 32);
    assert_eq!(MANUAL_QUEUE_CAPACITY, 4);
    assert_eq!(AIEDIT_SUBDIR, "AIEdit");
}

#[test]
fn worker_state_tracks_output_files() {
    let mut state = WorkerState::default();

    state.completed_count += 1;
    state.output_files.push("/output/AIEdit/photo1_AIEdit.jpg".to_string());
    assert_eq!(state.processed_count(), 1);
    assert_eq!(state.output_files.len(), 1);

    state.completed_count += 1;
    state.output_files.push("/output/AIEdit/photo2_AIEdit.jpg".to_string());
    assert_eq!(state.processed_count(), 2);
    assert_eq!(state.output_files.len(), 2);

    state.failed_count += 1;
    state.failed_files.push("bad.jpg".to_string());
    assert_eq!(state.processed_count(), 3);
    assert_eq!(state.output_files.len(), 2);
    assert_eq!(state.failed_files.len(), 1);
}

#[test]
fn batch_progress_and_summary() {
    let mut state = WorkerState::default();
    match state.task_started("a.jpg".to_string(), 2) {
        AiEditProgressEvent::Progress { current, total, .. } => assert_eq!((current, total), (1, 3)),
        other => panic!("unexpected {:?}", other),
    }
    match state.record_completed("a.jpg".to_string(), "/out/a.jpg".to_string(), 2) {
        AiEditProgressEvent::Completed { current, total, output_path, .. } => {
            assert_eq!((current, total), (1, 3));
            assert_eq!(output_path.as_deref(), Some("/out/a.jpg"));
        }
        other => panic!("unexpected {:?}", other),
    }
    match state.record_failed("b.jpg".to_string(), "boom".to_string(), 1) {
        AiEditProgressEvent::Failed { current, total, failed_count, .. } => assert_eq!((current, total, failed_count), (2, 3, 1)),
        other => panic!("unexpected {:?}", other),
    }
    assert!(!state.batch_complete(1));
    assert!(state.batch_complete(0));
    match state.finish_batch() {
        AiEditProgressEvent::Done { total, failed_count, failed_files, output_files } => {
            assert_eq!((total, failed_count), (2, 1));
            assert_eq!(failed_files, vec!["b.jpg".to_string()]);
            assert_eq!(output_files, vec!["/out/a.jpg".to_string()]);
        }
        other => panic!("unexpected {:?}", other),
    }
    assert_eq!(state.processed_count(), 0);
    assert!(!state.batch_complete(0));
}

#[test]
fn auto_edit_needs_switches_and_prompt() {
    let mut c = AiEditConfig::default();
    assert!(!should_auto_edit(&c));
    c.auto_edit = true;
    c.prompt = "   ".to_string();
    assert!(!should_auto_edit(&c));
    c.prompt = "enhance".to_string();
    assert!(should_auto_edit(&c));
    c.enabled = false;
    assert!(!should_auto_edit(&c));
}

#[test]
fn credentials_prompt_and_provider_cache() {
    let c = AiEditConfig::default();
    assert!(matches!(edit_credentials(&c, &None), Err(AppError::AiEditError(m)) if m == "API Key is not configured"));
    let mut c = AiEditConfig::default();
    c.provider = ProviderConfig::SeedEdit(SeedEditConfig { api_key: "k".to_string(), model: "m1".to_string() });
    assert_eq!(edit_credentials(&c, &None).unwrap(), ("k".to_string(), "m1".to_string()));
    assert_eq!(edit_credentials(&c, &Some("m2".to_string())).unwrap(), ("k".to_string(), "m2".to_string()));
    assert!(provider_outdated(&None, &None, "k", "m1"));
    assert!(!provider_outdated(&Some("k".to_string()), &Some("m1".to_string()), "k", "m1"));
    assert!(provider_outdated(&Some("k".to_string()), &Some("m1".to_string()), "k", "m2"));
    assert_eq!(edit_prompt(&Some("mine".to_string()), "cfg").unwrap(), "mine");
    assert_eq!(edit_prompt(&None, "cfg").unwrap(), "cfg");
    assert!(matches!(edit_prompt(&None, ""), Err(AppError::AiEditError(_))));
}

#[test]
fn edited_image_names() {
    let stem = edited_image_stem("/photos/IMG_42.JPG");
    assert_eq!(stem, "IMG_42");
    assert_eq!(edited_image_name(&stem, "20240101_000000.123", 0), "IMG_42_AIEdit_20240101_000000.123.jpg");
    assert_eq!(edited_image_name(&stem, "20240101_000000.123", 12), "IMG_42_AIEdit_20240101_000000.123_12.jpg");
    assert_eq!(edited_image_stem("/"), "image");
    assert_eq!(display_file_name("/photos/IMG_42.JPG"), "IMG_42.JPG");
    assert_eq!(display_file_name("/"), "unknown");
}

#[test]
fn prepared_image_is_base64_jpeg() {
    let p = PreparedImage::from_jpeg(b"test");
    assert_eq!(p.base64_data, "dGVzdA==");
    assert_eq!(p.mime_type, "image/jpeg");
}

#[test]
fn provider_reply_decisions() {
    assert_eq!(image_data_uri("image/jpeg", "dGVzdA=="), "data:image/jpeg;base64,dGVzdA==");
    assert!(matches!(
        api_error("400 Bad Request", &Some("InvalidParameter".to_string()), &None),
        AppError::AiEditError(m) if m == "API error (400 Bad Request): InvalidParameter — "
    ));
    assert!(matches!(
        api_error("500", &None, &Some("boom".to_string())),
        AppError::AiEditError(m) if m == "API error (500): unknown — boom"
    ));
    let long = "x".repeat(300);
    assert!(matches!(api_raw_error("502", &long), AppError::AiEditError(m) if m == format!("API returned 502: {}", "x".repeat(200))));
    assert!(matches!(edited_image_source(vec![]), Err(AppError::AiEditError(m)) if m == "API returned no image data"));
    let both = vec![SeedEditImageData { url: Some("https://x/y.jpg".to_string()), b64_json: Some("AA==".to_string()) }];
    assert!(matches!(edited_image_source(both), Ok(EditedImage::Download(u)) if u == "https://x/y.jpg"));
    let inline = vec![SeedEditImageData { url: None, b64_json: Some("AA==".to_string()) }];
    assert!(matches!(edited_image_source(inline), Ok(EditedImage::Inline(b)) if b == "AA=="));
    let neither = vec![SeedEditImageData { url: None, b64_json: None }];
    assert!(matches!(edited_image_source(neither), Err(AppError::AiEditError(m)) if m == "API returned neither URL nor base64 data"));
    assert_eq!(decode_inline_image("dGVzdA==").unwrap(), b"test".to_vec());
    assert!(matches!(decode_inline_image("not base64!"), Err(AppError::AiEditError(m)) if m.starts_with("Failed to decode base64 image: ")));
}

#[test]
fn request_body_serialization() {
    let test_model = "doubao-seedream-4-0-250828";
    let request = camera_ftp_companion::ai_edit::seededit_request(test_model, "enhance photo quality", "image/jpeg", "dGVzdA==");
    assert_eq!(request.model, test_model);
    assert_eq!(request.prompt, "enhance photo quality");
    assert_eq!(request.image, "data:image/jpeg;base64,dGVzdA==");
    assert_eq!(request.size, "4K");
    assert_eq!(request.response_format, "url");
    assert!(!request.watermark);
}

#[test]
fn request_address_and_authorization() {
    assert_eq!(
        camera_ftp_companion::ai_edit::generations_url(),
        "https://ark.cn-beijing.volces.com/api/v3/images/generations"
    );
    assert_eq!(camera_ftp_companion::ai_edit::bearer_header("k-1"), "Bearer k-1");
}

#[test]
fn provider_requires_api_key() {
    match camera_ftp_companion::ai_edit::require_api_key("") {
        Err(camera_ftp_companion::error::AppError::AiEditError(msg)) => assert!(msg.contains("API Key")),
        other => panic!("Expected AiEditError, got: {:?}", other),
    }
    assert!(camera_ftp_companion::ai_edit::require_api_key("test-api-key-123").is_ok());
}

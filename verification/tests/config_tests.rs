use camera_ftp_companion::config::{
    build_platform, default_android_image_viewer, default_auto_color_grading, platform_of_separator, default_pictures_dir, password_needs_hash,
    saved_auth_config, AndroidImageOpenMethod, merge_backend_owned_fields, patched_preview_config, AiEditConfig, AppConfig, AuthConfig, AutoColorGradingConfig,
    ImageOpenMethod, Platform, PreviewWindowConfig, PreviewWindowConfigPatch, ProviderConfig,
    ANDROID_DEFAULT_STORAGE_PATH, DEFAULT_SEEDREAM_MODEL,
};

#[test]
fn valid_default_config_passes_validation() {
    let config = AppConfig::default();
    assert!(config.validate().is_ok());
}

#[test]
fn empty_save_path_fails_validation() {
    let mut config = AppConfig::default();
    config.save_path = String::new();
    assert!(config.validate().is_err());
}

#[test]
fn auth_enabled_with_empty_username_fails_validation() {
    let mut config = AppConfig::default();
    config.advanced_connection.enabled = true;
    config.advanced_connection.auth.anonymous = false;
    config.advanced_connection.auth.username = String::new();
    assert!(config.validate().is_err());
}

#[test]
fn auth_enabled_with_valid_username_passes_validation() {
    let mut config = AppConfig::default();
    config.advanced_connection.enabled = true;
    config.advanced_connection.auth.anonymous = false;
    config.advanced_connection.auth.username = "admin".to_string();
    config.advanced_connection.auth.password_hash = "somehash".to_string();
    assert!(config.validate().is_ok());
}

#[test]
fn normalized_for_current_platform_applies_platform_save_path_rules() {
    let mut config = AppConfig::default();
    config.save_path = "/tmp/custom-cameraftp".to_string();

    let normalized = config.normalized_for_current_platform();

    assert_eq!(normalized.save_path, "/tmp/custom-cameraftp");
}

#[test]
fn validation_messages() {
    let mut config = AppConfig::default();
    config.port = 0;
    assert_eq!(config.validate(), Err("Port cannot be 0".to_string()));
    let mut config = AppConfig::default();
    config.save_path = String::new();
    assert_eq!(config.validate(), Err("Save path cannot be empty".to_string()));
    let mut config = AppConfig::default();
    config.advanced_connection.enabled = true;
    config.advanced_connection.auth.anonymous = false;
    config.advanced_connection.auth.username = "  ".to_string();
    assert_eq!(
        config.validate(),
        Err("Username cannot be empty when authentication is enabled".to_string())
    );
}

#[test]
fn platform_defaults() {
    let windows = AppConfig::default_for(Platform::Windows, "C:/Pictures".to_string());
    assert_eq!(windows.port, 21);
    assert_eq!(windows.save_path, "C:/Pictures");
    assert!(windows.preview_config.is_some());
    assert!(windows.android_image_viewer.is_none());
    let android = AppConfig::default_for(Platform::Android, "ignored".to_string());
    assert_eq!(android.port, 2121);
    assert_eq!(android.save_path, ANDROID_DEFAULT_STORAGE_PATH);
    assert!(android.preview_config.is_none());
    assert!(android.android_image_viewer.is_some());
    let auto = android.auto_color_grading.clone().unwrap();
    assert!(!auto.enabled);
    assert_eq!(auto.preset_id, "provia");
    let moved = windows.normalized_for_platform(Platform::Android);
    assert_eq!(moved.save_path, ANDROID_DEFAULT_STORAGE_PATH);
    assert!(AuthConfig::default().anonymous);
    assert!(!AutoColorGradingConfig::default().enabled);
}

#[test]
fn default_config_has_ai_edit_enabled_true() {
    let config = AiEditConfig::default();
    assert!(config.enabled);
}

#[test]
fn default_config_has_empty_prompt() {
    let config = AiEditConfig::default();
    assert!(config.prompt.is_empty());
}

#[test]
fn default_config_has_seed_edit_provider() {
    let config = AiEditConfig::default();
    assert!(matches!(config.provider, ProviderConfig::SeedEdit(_)));
}

#[test]
fn default_model_is_5_0_lite() {
    assert_eq!(DEFAULT_SEEDREAM_MODEL, "doubao-seedream-5-0-260128");
}

#[test]
fn helper_merge_backend_owned_fields_preserves_preview_config() {
    let current = AppConfig {
        preview_config: Some(PreviewWindowConfig {
            enabled: true,
            method: ImageOpenMethod::WindowsPhotos,
            custom_path: Some("C:/Program Files/Photos/photos.exe".to_string()),
            auto_bring_to_front: true,
        }),
        ..AppConfig::default()
    };
    let incoming = AppConfig {
        preview_config: Some(PreviewWindowConfig::default()),
        ..AppConfig::default()
    };

    let merged = merge_backend_owned_fields(incoming, &current);
    let preview = merged.preview_config.expect("preview should still be present");
    assert!(matches!(preview.method, ImageOpenMethod::WindowsPhotos));
    assert!(preview.auto_bring_to_front);
}

#[test]
fn helper_preview_patch_updates_only_requested_fields() {
    let current = PreviewWindowConfig {
        enabled: true,
        method: ImageOpenMethod::BuiltInPreview,
        custom_path: Some("viewer.exe".to_string()),
        auto_bring_to_front: false,
    };
    let patch = PreviewWindowConfigPatch {
        enabled: None,
        method: Some(ImageOpenMethod::SystemDefault),
        custom_path: None,
        auto_bring_to_front: Some(true),
    };

    let merged = patch.apply_to(current);
    assert!(matches!(merged.method, ImageOpenMethod::SystemDefault));
    assert_eq!(merged.custom_path, Some("viewer.exe".to_string()));
    assert!(merged.auto_bring_to_front);
}

#[test]
fn preview_patch_starts_from_defaults_when_none() {
    let patch = PreviewWindowConfigPatch {
        enabled: Some(false),
        method: None,
        custom_path: Some(Some("x.exe".to_string())),
        auto_bring_to_front: None,
    };
    let r = patched_preview_config(&None, patch);
    assert!(!r.enabled);
    assert_eq!(r.method, ImageOpenMethod::BuiltInPreview);
    assert_eq!(r.custom_path, Some("x.exe".to_string()));
    assert!(!r.auto_bring_to_front);
}

#[test]
fn platform_defaults_for_missing_settings() {
    let v = default_android_image_viewer(Platform::Android).unwrap();
    assert_eq!(v.open_method, AndroidImageOpenMethod::BuiltInViewer);
    assert!(!v.auto_open_latest_when_visible);
    assert!(default_android_image_viewer(Platform::Windows).is_none());
    let c = default_auto_color_grading().unwrap();
    assert!(!c.enabled);
    assert_eq!(c.preset_id, "provia");
    assert_eq!(default_pictures_dir(Platform::Android, Some("C:/x".to_string())), "/storage/emulated/0/DCIM/CameraFTP");
    assert_eq!(default_pictures_dir(Platform::Windows, Some("C:/Users/a/Pictures".to_string())), "C:/Users/a/Pictures");
    assert_eq!(default_pictures_dir(Platform::Windows, None), "./pictures");
}

#[test]
fn saved_auth_hashes_only_given_passwords() {
    assert!(password_needs_hash(false, "pw"));
    assert!(!password_needs_hash(true, "pw"));
    assert!(!password_needs_hash(false, ""));
    let a = saved_auth_config(false, "cam".to_string(), Some("$argon2id$x".to_string()));
    assert!(!a.anonymous);
    assert_eq!(a.username, "cam");
    assert_eq!(a.password_hash, "$argon2id$x");
    let a = saved_auth_config(true, "cam".to_string(), None);
    assert_eq!(a.password_hash, "");
}

#[test]
fn default_config_saves_to_user_pictures_dir() {
    let config = AppConfig::default();
    let expected = match dirs::picture_dir() {
        Some(p) => p.to_string_lossy().into_owned(),
        None => "./pictures".to_string(),
    };
    assert_eq!(config.save_path, expected);
    let windows = std::path::MAIN_SEPARATOR == '\\';
    assert_eq!(config.port, if windows { 21 } else { 2121 });
    assert_eq!(config.preview_config.is_some(), windows);
    assert!(config.android_image_viewer.is_none());
    assert_eq!(build_platform(), if windows { Platform::Windows } else { Platform::Other });
}

#[test]
fn platform_told_by_path_separator() {
    assert_eq!(platform_of_separator('\\'), Platform::Windows);
    assert_eq!(platform_of_separator('/'), Platform::Other);
}

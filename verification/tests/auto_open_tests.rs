use camera_ftp_companion::auto_open::{
    effective_preview_config, manual_open_action, open_action, open_folder_and_select_file, open_with_default,
    open_with_program, upload_open_action, OpenAction, PreviewEvent, ShellCommand,
};
use camera_ftp_companion::config::{ImageOpenMethod, PreviewWindowConfig};

fn cfg(method: ImageOpenMethod, custom: Option<&str>, enabled: bool, front: bool) -> PreviewWindowConfig {
    PreviewWindowConfig { enabled, method, custom_path: custom.map(|s| s.to_string()), auto_bring_to_front: front }
}

#[test]
fn open_action_follows_method() {
    let p = "C:/pics/a.jpg".to_string();
    assert_eq!(
        open_action(&cfg(ImageOpenMethod::BuiltInPreview, None, true, false), p.clone(), true),
        OpenAction::PreviewWindow(PreviewEvent { file_path: p.clone(), bring_to_front: true })
    );
    assert_eq!(
        open_action(&cfg(ImageOpenMethod::SystemDefault, None, true, false), p.clone(), false),
        OpenAction::SystemDefault { file_path: p.clone() }
    );
    assert_eq!(
        open_action(&cfg(ImageOpenMethod::WindowsPhotos, None, true, false), p.clone(), false),
        OpenAction::WindowsPhotos { file_path: p.clone() }
    );
    assert_eq!(
        open_action(&cfg(ImageOpenMethod::Custom, Some("C:/viewer.exe"), true, false), p.clone(), false),
        OpenAction::Program { file_path: p.clone(), program: "C:/viewer.exe".to_string() }
    );
    assert_eq!(open_action(&cfg(ImageOpenMethod::Custom, None, true, false), p, false), OpenAction::Nothing);
}

#[test]
fn upload_opens_only_when_enabled() {
    let p = "a.jpg".to_string();
    assert_eq!(upload_open_action(&cfg(ImageOpenMethod::BuiltInPreview, None, false, true), p.clone()), OpenAction::Nothing);
    assert_eq!(
        upload_open_action(&cfg(ImageOpenMethod::BuiltInPreview, None, true, true), p.clone()),
        OpenAction::PreviewWindow(PreviewEvent { file_path: p.clone(), bring_to_front: true })
    );
    assert_eq!(
        manual_open_action(&cfg(ImageOpenMethod::BuiltInPreview, None, false, false), p.clone()),
        OpenAction::PreviewWindow(PreviewEvent { file_path: p, bring_to_front: true })
    );
}

#[test]
fn preview_config_defaults_when_missing() {
    let c = effective_preview_config(&None);
    assert!(c.enabled);
    assert_eq!(c.method, ImageOpenMethod::BuiltInPreview);
    assert!(c.custom_path.is_none());
    assert!(!c.auto_bring_to_front);
    let set = cfg(ImageOpenMethod::Custom, Some("x.exe"), false, true);
    let c = effective_preview_config(&Some(set));
    assert!(!c.enabled);
    assert_eq!(c.custom_path.as_deref(), Some("x.exe"));
}

#[test]
fn shell_commands_for_opening() {
    let c = open_with_default("C:\\p\\a.jpg");
    assert_eq!(c, ShellCommand { file: "C:\\p\\a.jpg".to_string(), operation: None, arguments: None });
    let c = open_with_program("C:\\p\\a.jpg", "C:\\tools\\view.exe");
    assert_eq!(c.file, "C:\\tools\\view.exe");
    assert_eq!(c.arguments.as_deref(), Some("C:\\p\\a.jpg"));
    let c = open_folder_and_select_file("C:\\p\\a.jpg");
    assert_eq!(c.file, "explorer");
    assert_eq!(c.arguments.as_deref(), Some("/select,C:\\p\\a.jpg"));
}

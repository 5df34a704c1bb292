//! How a received image is opened on the desktop: in the built-in preview window, with the
//! system's default program, with Photos, or with a program the user chose.
use vstd::prelude::*;
use crate::config::{ImageOpenMethod, PreviewWindowConfig};

verus! {

/// The event that shows an image in the preview window.
#[derive(Debug, Clone, PartialEq, Eq)]
pub struct PreviewEvent {
    pub file_path: String,
    pub bring_to_front: bool,
}

/// The event that tells the windows the preview settings changed.
#[derive(Debug, Clone)]
pub struct ConfigChangedEvent {
    pub config: PreviewWindowConfig,
}

/// What opening an image does.
#[derive(Debug, Clone, PartialEq, Eq)]
pub enum OpenAction {
    /// Nothing.
    Nothing,
    /// Show the image in the preview window, brought to the front or not.
    PreviewWindow(PreviewEvent),
    /// Open the image with the system's default program.
    SystemDefault { file_path: String },
    /// Open the image with Photos.
    WindowsPhotos { file_path: String },
    /// Open the image with the chosen program.
    Program { file_path: String, program: String },
}

/// What opening `file_path` does under `config`: the configured method; a custom method
/// with no program chosen does nothing.
pub open spec fn spec_open_action(config: PreviewWindowConfig, file_path: String, bring_to_front: bool) -> OpenAction {
    match config.method {
        ImageOpenMethod::BuiltInPreview => OpenAction::PreviewWindow(PreviewEvent { file_path, bring_to_front }),
        ImageOpenMethod::SystemDefault => OpenAction::SystemDefault { file_path },
        ImageOpenMethod::WindowsPhotos => OpenAction::WindowsPhotos { file_path },
        ImageOpenMethod::Custom => match config.custom_path {
            Some(program) => OpenAction::Program { file_path, program },
            None => OpenAction::Nothing,
        },
    }
}

/// What opening `file_path` does under `config` (see `spec_open_action`).
pub fn open_action(config: &PreviewWindowConfig, file_path: String, bring_to_front: bool) -> (r: OpenAction)
    ensures
        r == spec_open_action(*config, file_path, bring_to_front),
{
    match config.method {
        ImageOpenMethod::BuiltInPreview => OpenAction::PreviewWindow(PreviewEvent { file_path, bring_to_front }),
        ImageOpenMethod::SystemDefault => OpenAction::SystemDefault { file_path },
        ImageOpenMethod::WindowsPhotos => OpenAction::WindowsPhotos { file_path },
        ImageOpenMethod::Custom => match &config.custom_path {
            Some(program) => OpenAction::Program { file_path, program: program.clone() },
            None => OpenAction::Nothing,
        },
    }
}

/// What an upload of `file_path` opens: nothing when automatic opening is off; else the
/// configured method, brought to the front as configured.
pub fn upload_open_action(config: &PreviewWindowConfig, file_path: String) -> (r: OpenAction)
    ensures
        !config.enabled ==> r == OpenAction::Nothing,
        config.enabled ==> r == spec_open_action(*config, file_path, config.auto_bring_to_front),
{
    if !config.enabled {
        return OpenAction::Nothing;
    }
    open_action(config, file_path, config.auto_bring_to_front)
}

/// What opening `file_path` by hand does: the configured method, brought to the front,
/// whether or not automatic opening is on.
pub fn manual_open_action(config: &PreviewWindowConfig, file_path: String) -> (r: OpenAction)
    ensures
        r == spec_open_action(*config, file_path, true),
{
    open_action(config, file_path, true)
}

/// The preview settings in effect: the configured ones, else the defaults.
pub fn effective_preview_config(preview: &Option<PreviewWindowConfig>) -> (r: PreviewWindowConfig)
    ensures
        match *preview {
            Some(c) => r == c,
            None => r.enabled && r.method == ImageOpenMethod::BuiltInPreview && r.custom_path is None
                && !r.auto_bring_to_front,
        },
{
    match preview {
        Some(c) => PreviewWindowConfig {
            enabled: c.enabled,
            method: c.method,
            custom_path: match &c.custom_path {
                Some(p) => Some(p.clone()),
                None => None,
            },
            auto_bring_to_front: c.auto_bring_to_front,
        },
        None => PreviewWindowConfig::default(),
    }
}


/// A start through the Windows shell: the file or program to open, the verb (the default
/// one when none), and the arguments.
#[derive(Debug, Clone, PartialEq, Eq)]
pub struct ShellCommand {
    pub file: String,
    pub operation: Option<String>,
    pub arguments: Option<String>,
}

/// Opening `file_path` with its default program: the shell opens the file itself.
pub fn open_with_default(file_path: &str) -> (r: ShellCommand)
    ensures
        r.file@ == file_path@,
        r.operation is None,
        r.arguments is None,
{
    ShellCommand { file: file_path.to_string(), operation: None, arguments: None }
}

/// Opening `file_path` with `program`: the shell starts the program with the file as its
/// argument.
pub fn open_with_program(file_path: &str, program: &str) -> (r: ShellCommand)
    ensures
        r.file@ == program@,
        r.operation is None,
        r.arguments matches Some(a) && a@ == file_path@,
{
    ShellCommand { file: program.to_string(), operation: None, arguments: Some(file_path.to_string()) }
}

/// Showing `file_path` selected in its folder: Explorer started with `/select,` and the path.
pub fn open_folder_and_select_file(file_path: &str) -> (r: ShellCommand)
    ensures
        r.file@ == "explorer"@,
        r.operation is None,
        r.arguments matches Some(a) && a@ == "/select,"@ + file_path@,
{
    ShellCommand {
        file: "explorer".to_string(),
        operation: None,
        arguments: Some(crate::text::join_strs("/select,", file_path)),
    }
}

} // verus!

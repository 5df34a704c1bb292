//! The application configuration: its parts, their defaults per platform, the rules a
//! configuration must meet, and the partial updates of the preview window settings.
use vstd::prelude::*;
use crate::text::{chars_of, trim_whitespace, trim_ws};

verus! {

/// Android's fixed storage directory.
pub const ANDROID_DEFAULT_STORAGE_PATH: &'static str = "/storage/emulated/0/DCIM/CameraFTP";
/// Android's DCIM directory (for permission checks).
pub const ANDROID_DCIM_PATH: &'static str = "/storage/emulated/0/DCIM";
/// How the Android storage directory is shown.
pub const ANDROID_STORAGE_DISPLAY_NAME: &'static str = "DCIM/CameraFTP";
/// Default FTP port on Windows (port 21 needs administrator rights).
pub const DEFAULT_FTP_PORT_WINDOWS: u16 = 21;
/// Default FTP port on Android.
pub const DEFAULT_FTP_PORT_ANDROID: u16 = 2121;
/// Default FTP port elsewhere.
pub const DEFAULT_FTP_PORT_OTHER: u16 = 2121;
/// Lowest port chosen by automatic port selection.
pub const MIN_PORT: u16 = 1025;
/// Idle timeout of an FTP connection, in seconds.
pub const IDLE_TIMEOUT_SECONDS: u64 = 600;
/// Default AI edit model (Doubao-Seedream-5.0-lite).
pub const DEFAULT_SEEDREAM_MODEL: &'static str = "doubao-seedream-5-0-260128";

/// The platform a configuration is made for.
#[derive(Debug, Clone, Copy, PartialEq, Eq, Structural)]
pub enum Platform {
    Windows,
    Android,
    Other,
}

/// Authentication settings.
#[derive(Debug, Clone)]
pub struct AuthConfig {
    /// Whether anonymous access is allowed.
    pub anonymous: bool,
    /// User name (used when anonymous access is off).
    pub username: String,
    /// Password hash (Argon2id, PHC format with its salt).
    pub password_hash: String,
}

impl Default for AuthConfig {
    fn default() -> (r: Self)
        ensures
            r.anonymous,
            r.username@.len() == 0,
            r.password_hash@.len() == 0,
    {
        AuthConfig { anonymous: true, username: String::new(), password_hash: String::new() }
    }
}

/// Advanced connection settings.
#[derive(Debug, Clone)]
pub struct AdvancedConnectionConfig {
    pub enabled: bool,
    pub auth: AuthConfig,
}

impl Default for AdvancedConnectionConfig {
    fn default() -> (r: Self)
        ensures
            !r.enabled,
            r.auth.anonymous,
            r.auth.username@.len() == 0,
            r.auth.password_hash@.len() == 0,
    {
        AdvancedConnectionConfig { enabled: false, auth: AuthConfig::default() }
    }
}

/// How a received image is opened (Windows).
#[derive(Debug, Clone, Copy, PartialEq, Eq, Structural)]
pub enum ImageOpenMethod {
    BuiltInPreview,
    SystemDefault,
    WindowsPhotos,
    Custom,
}

impl Default for ImageOpenMethod {
    fn default() -> (r: Self)
        ensures
            r == ImageOpenMethod::BuiltInPreview,
    {
        ImageOpenMethod::BuiltInPreview
    }
}

/// Preview window settings (Windows).
#[derive(Debug, Clone)]
pub struct PreviewWindowConfig {
    pub enabled: bool,
    pub method: ImageOpenMethod,
    /// Path of the custom program (used when `method` is `Custom`).
    pub custom_path: Option<String>,
    pub auto_bring_to_front: bool,
}

impl Default for PreviewWindowConfig {
    fn default() -> (r: Self)
        ensures
            r.enabled,
            r.method == ImageOpenMethod::BuiltInPreview,
            r.custom_path is None,
            !r.auto_bring_to_front,
    {
        PreviewWindowConfig {
            enabled: true,
            method: ImageOpenMethod::BuiltInPreview,
            custom_path: None,
            auto_bring_to_front: false,
        }
    }
}

/// How images are opened on Android.
#[derive(Debug, Clone, Copy, PartialEq, Eq, Structural)]
pub enum AndroidImageOpenMethod {
    BuiltInViewer,
    ExternalApp,
}

impl Default for AndroidImageOpenMethod {
    fn default() -> (r: Self)
        ensures
            r == AndroidImageOpenMethod::BuiltInViewer,
    {
        AndroidImageOpenMethod::BuiltInViewer
    }
}

/// Image viewer settings (Android).
#[derive(Debug, Clone, Copy)]
pub struct AndroidImageViewerConfig {
    pub open_method: AndroidImageOpenMethod,
    pub auto_open_latest_when_visible: bool,
}

impl Default for AndroidImageViewerConfig {
    fn default() -> (r: Self)
        ensures
            r.open_method == AndroidImageOpenMethod::BuiltInViewer,
            !r.auto_open_latest_when_visible,
    {
        AndroidImageViewerConfig {
            open_method: AndroidImageOpenMethod::BuiltInViewer,
            auto_open_latest_when_visible: false,
        }
    }
}

/// Automatic color grading settings.
#[derive(Debug, Clone)]
pub struct AutoColorGradingConfig {
    pub enabled: bool,
    /// Id of the color grading preset.
    pub preset_id: String,
}

impl Default for AutoColorGradingConfig {
    fn default() -> (r: Self)
        ensures
            !r.enabled,
            r.preset_id@ == "provia"@,
    {
        AutoColorGradingConfig { enabled: false, preset_id: "provia".to_string() }
    }
}

/// Settings of the SeedEdit provider.
#[derive(Debug, Clone)]
pub struct SeedEditConfig {
    pub api_key: String,
    /// Model id.
    pub model: String,
}

impl Default for SeedEditConfig {
    fn default() -> (r: Self)
        ensures
            r.api_key@.len() == 0,
            r.model@ == DEFAULT_SEEDREAM_MODEL@,
    {
        SeedEditConfig { api_key: String::new(), model: DEFAULT_SEEDREAM_MODEL.to_string() }
    }
}

/// The AI edit provider.
#[derive(Debug, Clone)]
pub enum ProviderConfig {
    SeedEdit(SeedEditConfig),
}

impl Default for ProviderConfig {
    fn default() -> (r: Self)
        ensures
            r matches ProviderConfig::SeedEdit(c) && c.api_key@.len() == 0 && c.model@ == DEFAULT_SEEDREAM_MODEL@,
    {
        ProviderConfig::SeedEdit(SeedEditConfig::default())
    }
}

/// AI edit settings.
#[derive(Debug, Clone)]
pub struct AiEditConfig {
    /// Master switch.
    pub enabled: bool,
    /// Edit every received image automatically.
    pub auto_edit: bool,
    /// Prompt of automatic edits.
    pub prompt: String,
    /// Prompt last used for a manual edit.
    pub manual_prompt: String,
    /// Model last used for a manual edit (empty: the provider's model).
    pub manual_model: String,
    pub provider: ProviderConfig,
}

impl Default for AiEditConfig {
    fn default() -> (r: Self)
        ensures
            r.enabled,
            !r.auto_edit,
            r.prompt@.len() == 0,
            r.manual_prompt@.len() == 0,
            r.manual_model@.len() == 0,
            r.provider matches ProviderConfig::SeedEdit(c) && c.api_key@.len() == 0 && c.model@ == DEFAULT_SEEDREAM_MODEL@,
    {
        AiEditConfig {
            enabled: true,
            auto_edit: false,
            prompt: String::new(),
            manual_prompt: String::new(),
            manual_model: String::new(),
            provider: ProviderConfig::default(),
        }
    }
}

/// The application configuration.
#[derive(Debug, Clone)]
pub struct AppConfig {
    /// Where received files are stored (fixed on Android).
    pub save_path: String,
    /// FTP port.
    pub port: u16,
    /// Choose a free port automatically.
    pub auto_select_port: bool,
    pub advanced_connection: AdvancedConnectionConfig,
    /// Preview window settings (Windows only).
    pub preview_config: Option<PreviewWindowConfig>,
    /// Image viewer settings (Android only).
    pub android_image_viewer: Option<AndroidImageViewerConfig>,
    pub ai_edit: AiEditConfig,
    pub auto_color_grading: Option<AutoColorGradingConfig>,
}

/// The default FTP port of a platform.
pub open spec fn default_port(p: Platform) -> u16 {
    if p == Platform::Windows { DEFAULT_FTP_PORT_WINDOWS } else { DEFAULT_FTP_PORT_ANDROID }
}

/// Whether `c` is the default configuration of platform `p` whose pictures directory is
/// `pictures_dir` (used as the save path except on Android, which has a fixed one).
pub open spec fn is_default_config(c: AppConfig, p: Platform, pictures_dir: Seq<char>) -> bool {
    &&& c.save_path@ == if p == Platform::Android { ANDROID_DEFAULT_STORAGE_PATH@ } else { pictures_dir }
    &&& c.port == default_port(p)
    &&& c.auto_select_port
    &&& !c.advanced_connection.enabled
    &&& c.advanced_connection.auth.anonymous
    &&& c.advanced_connection.auth.username@.len() == 0
    &&& c.advanced_connection.auth.password_hash@.len() == 0
    &&& if p == Platform::Windows {
        c.preview_config matches Some(pc) && pc.enabled && pc.method == ImageOpenMethod::BuiltInPreview
            && pc.custom_path is None && !pc.auto_bring_to_front
    } else {
        c.preview_config is None
    }
    &&& if p == Platform::Android {
        c.android_image_viewer matches Some(v) && v.open_method == AndroidImageOpenMethod::BuiltInViewer
            && !v.auto_open_latest_when_visible
    } else {
        c.android_image_viewer is None
    }
    &&& c.ai_edit.enabled && !c.ai_edit.auto_edit
    &&& c.ai_edit.prompt@.len() == 0 && c.ai_edit.manual_prompt@.len() == 0 && c.ai_edit.manual_model@.len() == 0
    &&& c.ai_edit.provider matches ProviderConfig::SeedEdit(s) && s.api_key@.len() == 0 && s.model@ == DEFAULT_SEEDREAM_MODEL@
    &&& c.auto_color_grading matches Some(g) && !g.enabled && g.preset_id@ == "provia"@
}

/// The reason a configuration is refused, if it is: a zero port, an empty save path, or
/// authentication turned on without a user name.
pub open spec fn config_problem(c: AppConfig) -> Option<Seq<char>> {
    if c.port == 0 {
        Some("Port cannot be 0"@)
    } else if c.save_path@.len() == 0 {
        Some("Save path cannot be empty"@)
    } else if c.advanced_connection.enabled && !c.advanced_connection.auth.anonymous
        && trim_ws(c.advanced_connection.auth.username@).len() == 0 {
        Some("Username cannot be empty when authentication is enabled"@)
    } else {
        None
    }
}

/// The image viewer settings a configuration without them gets: the defaults on Android,
/// none elsewhere.
pub fn default_android_image_viewer(platform: Platform) -> (r: Option<AndroidImageViewerConfig>)
    ensures
        platform == Platform::Android ==> (r matches Some(v)
            && v.open_method == AndroidImageOpenMethod::BuiltInViewer && !v.auto_open_latest_when_visible),
        platform != Platform::Android ==> r is None,
{
    if platform == Platform::Android {
        Some(AndroidImageViewerConfig::default())
    } else {
        None
    }
}

/// The automatic color grading settings a configuration without them gets: the defaults.
pub fn default_auto_color_grading() -> (r: Option<AutoColorGradingConfig>)
    ensures
        r matches Some(c) && !c.enabled && c.preset_id@ == "provia"@,
{
    Some(AutoColorGradingConfig::default())
}

/// The directory pictures are saved to by default: Android's fixed storage directory on
/// Android; elsewhere the user's pictures directory, or `./pictures` when there is none.
pub fn default_pictures_dir(platform: Platform, user_pictures_dir: Option<String>) -> (r: String)
    ensures
        platform == Platform::Android ==> r@ == ANDROID_DEFAULT_STORAGE_PATH@,
        platform != Platform::Android ==> r@ == match user_pictures_dir {
            Some(d) => d@,
            None => "./pictures"@,
        },
{
    if platform == Platform::Android {
        ANDROID_DEFAULT_STORAGE_PATH.to_string()
    } else {
        match user_pictures_dir {
            Some(d) => d,
            None => "./pictures".to_string(),
        }
    }
}

/// The settings of user authentication as saved: with the password hash when one was
/// made (see `password_needs_hash`), else with none.
pub fn saved_auth_config(anonymous: bool, username: String, password_hash: Option<String>) -> (r: AuthConfig)
    ensures
        r.anonymous == anonymous,
        r.username == username,
        r.password_hash@ == match password_hash {
            Some(h) => h@,
            None => Seq::<char>::empty(),
        },
{
    let password_hash = match password_hash {
        Some(h) => h,
        None => String::new(),
    };
    AuthConfig { anonymous, username, password_hash }
}

/// Whether saving authentication settings hashes the password: only when anonymous access
/// is off and the password is not empty.
pub fn password_needs_hash(anonymous: bool, password: &str) -> (r: bool)
    ensures
        r == (!anonymous && password@.len() > 0),
{
    !anonymous && password.unicode_len() > 0
}

impl AppConfig {
    /// The default configuration of `platform`, whose pictures directory is `pictures_dir`.
    pub fn default_for(platform: Platform, pictures_dir: String) -> (c: AppConfig)
        ensures
            is_default_config(c, platform, pictures_dir@),
    {
        let save_path = if platform == Platform::Android {
            ANDROID_DEFAULT_STORAGE_PATH.to_string()
        } else {
            pictures_dir
        };
        let port = if platform == Platform::Windows { DEFAULT_FTP_PORT_WINDOWS } else { DEFAULT_FTP_PORT_ANDROID };
        let preview_config = if platform == Platform::Windows { Some(PreviewWindowConfig::default()) } else { None };
        let android_image_viewer = if platform == Platform::Android {
            Some(AndroidImageViewerConfig::default())
        } else {
            None
        };
        AppConfig {
            save_path,
            port,
            auto_select_port: true,
            advanced_connection: AdvancedConnectionConfig::default(),
            preview_config,
            android_image_viewer,
            ai_edit: AiEditConfig::default(),
            auto_color_grading: Some(AutoColorGradingConfig::default()),
        }
    }

    /// The configuration with the save path a platform imposes: Android's fixed storage
    /// directory on Android; elsewhere unchanged.
    pub fn normalized_for_platform(self, platform: Platform) -> (c: AppConfig)
        ensures
            c.save_path@ == if platform == Platform::Android { ANDROID_DEFAULT_STORAGE_PATH@ } else { self.save_path@ },
            c.port == self.port,
            c.auto_select_port == self.auto_select_port,
            c.advanced_connection == self.advanced_connection,
            c.preview_config == self.preview_config,
            c.android_image_viewer == self.android_image_viewer,
            c.ai_edit == self.ai_edit,
            c.auto_color_grading == self.auto_color_grading,
    {
        let mut config = self;
        if platform == Platform::Android {
            config.save_path = ANDROID_DEFAULT_STORAGE_PATH.to_string();
        }
        config
    }

    /// The configuration as the desktop build keeps it: unchanged (only Android imposes a
    /// save path).
    pub fn normalized_for_current_platform(self) -> (c: AppConfig)
        ensures
            c == self,
    {
        self
    }

    /// Checks the configuration (see `config_problem`).
    pub fn validate(&self) -> (r: Result<(), String>)
        ensures
            match config_problem(*self) {
                Some(m) => r matches Err(e) && e@ == m,
                None => r is Ok,
            },
    {
        if self.port == 0 {
            return Err("Port cannot be 0".to_string());
        }
        if self.save_path.as_str().unicode_len() == 0 {
            return Err("Save path cannot be empty".to_string());
        }
        if self.advanced_connection.enabled && !self.advanced_connection.auth.anonymous {
            let name = trim_whitespace(chars_of(self.advanced_connection.auth.username.as_str()).as_slice());
            if name.len() == 0 {
                return Err("Username cannot be empty when authentication is enabled".to_string());
            }
        }
        Ok(())
    }
}

/// `dirs::picture_dir`: the user's pictures directory, when the system knows one, as text
/// (converted lossily from the path). Nothing is stated of it: it depends on the machine
/// and the user.
#[verifier::external_body]
fn user_pictures_dir() -> Option<String> {
    match dirs::picture_dir() {
        Some(path) => Some(path.to_string_lossy().into_owned()),
        None => None,
    }
}

/// `std::path::MAIN_SEPARATOR`: the separator of path components on the platform the
/// library was built for (a backslash on Windows, `/` on Unix). Nothing is stated of it:
/// it depends on the build target.
#[verifier::external_body]
fn path_separator() -> char {
    std::path::MAIN_SEPARATOR
}

/// The desktop platform whose paths are separated by `separator`: Windows for a
/// backslash, another platform for anything else.
pub fn platform_of_separator(separator: char) -> (p: Platform)
    ensures
        p == (if separator == '\\' { Platform::Windows } else { Platform::Other }),
{
    if separator == '\\' {
        Platform::Windows
    } else {
        Platform::Other
    }
}

/// The desktop platform the library was built for, told by its path separator (see
/// `platform_of_separator`). An Android build also separates paths with `/`; the
/// application, which knows its target, picks Android's defaults itself (`default_for`,
/// `normalized_for_platform`).
pub fn build_platform() -> (p: Platform)
    ensures
        p == Platform::Windows || p == Platform::Other,
{
    platform_of_separator(path_separator())
}

impl Default for AppConfig {
    /// The default configuration of the desktop platform the library was built for (see
    /// `build_platform`): its save path is the user's pictures directory, or `./pictures`
    /// when the system knows none (see `default_pictures_dir`).
    fn default() -> (c: Self)
        ensures
            is_default_config(c, Platform::Windows, c.save_path@)
                || is_default_config(c, Platform::Other, c.save_path@),
    {
        let platform = build_platform();
        let pictures = default_pictures_dir(platform, user_pictures_dir());
        AppConfig::default_for(platform, pictures)
    }
}

/// A partial update of the preview window settings: each field that is given replaces
/// the current one.
#[derive(Debug)]
pub struct PreviewWindowConfigPatch {
    pub enabled: Option<bool>,
    pub method: Option<ImageOpenMethod>,
    pub custom_path: Option<Option<String>>,
    pub auto_bring_to_front: Option<bool>,
}

impl PreviewWindowConfigPatch {
    /// `current` with the given fields of the patch replacing its own.
    pub fn apply_to(self, current: PreviewWindowConfig) -> (r: PreviewWindowConfig)
        ensures
            r.enabled == match self.enabled { Some(v) => v, None => current.enabled },
            r.method == match self.method { Some(v) => v, None => current.method },
            r.custom_path == match self.custom_path { Some(v) => v, None => current.custom_path },
            r.auto_bring_to_front == match self.auto_bring_to_front { Some(v) => v, None => current.auto_bring_to_front },
    {
        let mut current = current;
        if let Some(enabled) = self.enabled {
            current.enabled = enabled;
        }
        if let Some(method) = self.method {
            current.method = method;
        }
        if let Some(custom_path) = self.custom_path {
            current.custom_path = custom_path;
        }
        if let Some(auto_bring_to_front) = self.auto_bring_to_front {
            current.auto_bring_to_front = auto_bring_to_front;
        }
        current
    }
}

fn clone_preview(p: &Option<PreviewWindowConfig>) -> (r: Option<PreviewWindowConfig>)
    ensures
        r == *p,
{
    match p {
        Some(c) => Some(PreviewWindowConfig {
            enabled: c.enabled,
            method: c.method,
            custom_path: match &c.custom_path {
                Some(s) => Some(s.clone()),
                None => None,
            },
            auto_bring_to_front: c.auto_bring_to_front,
        }),
        None => None,
    }
}

/// A configuration saved by the frontend, with the fields the backend owns (the preview
/// window settings, changed only through their own command) taken from `current`.
pub fn merge_backend_owned_fields(incoming: AppConfig, current: &AppConfig) -> (r: AppConfig)
    ensures
        r.preview_config == current.preview_config,
        r.save_path == incoming.save_path,
        r.port == incoming.port,
        r.auto_select_port == incoming.auto_select_port,
        r.advanced_connection == incoming.advanced_connection,
        r.android_image_viewer == incoming.android_image_viewer,
        r.ai_edit == incoming.ai_edit,
        r.auto_color_grading == incoming.auto_color_grading,
{
    let mut incoming = incoming;
    incoming.preview_config = clone_preview(&current.preview_config);
    incoming
}

/// The preview settings after a patch: the current ones (or the defaults when there are
/// none) with the patch applied.
pub fn patched_preview_config(current: &Option<PreviewWindowConfig>, patch: PreviewWindowConfigPatch) -> (r: PreviewWindowConfig)
    ensures
        match *current {
            Some(c) => {
                &&& r.enabled == match patch.enabled { Some(v) => v, None => c.enabled }
                &&& r.method == match patch.method { Some(v) => v, None => c.method }
                &&& r.custom_path == match patch.custom_path { Some(v) => v, None => c.custom_path }
                &&& r.auto_bring_to_front == match patch.auto_bring_to_front { Some(v) => v, None => c.auto_bring_to_front }
            },
            None => {
                &&& r.enabled == match patch.enabled { Some(v) => v, None => true }
                &&& r.method == match patch.method { Some(v) => v, None => ImageOpenMethod::BuiltInPreview }
                &&& r.custom_path == match patch.custom_path { Some(v) => v, None => None }
                &&& r.auto_bring_to_front == match patch.auto_bring_to_front { Some(v) => v, None => false }
            },
        },
{
    let base = match clone_preview(current) {
        Some(c) => c,
        None => PreviewWindowConfig::default(),
    };
    patch.apply_to(base)
}

} // verus!

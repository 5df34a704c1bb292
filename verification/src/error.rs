//! The application's error type: a stable code for the frontend, the message of each
//! variant, a message for the user, and which errors are critical.
use vstd::prelude::*;
use crate::text::join_strs;

verus! {

/// Errors of the application.
#[derive(Debug, Clone)]
pub enum AppError {
    ServerAlreadyRunning,
    ServerNotRunning,
    NoAvailablePort,
    NoNetworkInterface,
    Io(String),
    Serialization(String),
    NetworkError(String),
    PermissionError(String),
    StoragePermissionError(String),
    AiEditError(String),
    Other(String),
}

/// The code by which the frontend recognizes an error.
pub open spec fn error_code(e: AppError) -> Seq<char> {
    match e {
        AppError::ServerAlreadyRunning => "SERVER_ALREADY_RUNNING"@,
        AppError::ServerNotRunning => "SERVER_NOT_RUNNING"@,
        AppError::NoAvailablePort => "NO_AVAILABLE_PORT"@,
        AppError::NoNetworkInterface => "NO_NETWORK_INTERFACE"@,
        AppError::Io(_) => "IO_ERROR"@,
        AppError::Serialization(_) => "SERIALIZATION_ERROR"@,
        AppError::NetworkError(_) => "NETWORK_ERROR"@,
        AppError::PermissionError(_) => "PERMISSION_ERROR"@,
        AppError::StoragePermissionError(_) => "STORAGE_PERMISSION_ERROR"@,
        AppError::AiEditError(_) => "AI_EDIT_ERROR"@,
        AppError::Other(_) => "OTHER_ERROR"@,
    }
}

/// The message of an error.
pub open spec fn error_message(e: AppError) -> Seq<char> {
    match e {
        AppError::ServerAlreadyRunning => "服务器已在运行"@,
        AppError::ServerNotRunning => "服务器未运行"@,
        AppError::NoAvailablePort => "无可用端口"@,
        AppError::NoNetworkInterface => "无可用网络接口"@,
        AppError::Io(m) => "IO错误: "@ + m@,
        AppError::Serialization(m) => "序列化错误: "@ + m@,
        AppError::NetworkError(m) => "网络错误: "@ + m@,
        AppError::PermissionError(m) => "权限错误: "@ + m@,
        AppError::StoragePermissionError(m) => "存储权限错误: "@ + m@,
        AppError::AiEditError(m) => "AI修图错误: "@ + m@,
        AppError::Other(m) => "其他错误: "@ + m@,
    }
}

/// The message shown to the user for an error.
pub open spec fn error_user_message(e: AppError) -> Seq<char> {
    match e {
        AppError::ServerAlreadyRunning => "FTP服务器已经在运行中，请先停止当前服务器"@,
        AppError::ServerNotRunning => "FTP服务器未运行，无法执行此操作"@,
        AppError::NoAvailablePort => "无法找到可用的端口（1025-65535），请检查系统端口占用情况"@,
        AppError::NoNetworkInterface => "未检测到可用的网络接口，请检查网络连接"@,
        AppError::Io(m) => "文件系统错误: "@ + m@,
        AppError::Serialization(m) => "数据序列化错误: "@ + m@,
        AppError::NetworkError(m) => "网络错误: "@ + m@,
        AppError::PermissionError(m) => "权限错误: "@ + m@ + "，请检查文件或目录权限"@,
        AppError::StoragePermissionError(m) => "存储权限错误: "@ + m@,
        AppError::AiEditError(m) => "AI修图错误: "@ + m@,
        AppError::Other(m) => m@,
    }
}

/// Whether an error is critical: the permission errors.
pub open spec fn error_is_critical(e: AppError) -> bool {
    e is PermissionError || e is StoragePermissionError
}

impl AppError {
    /// The error code (for the frontend).
    pub fn code(&self) -> (r: &'static str)
        ensures
            r@ == error_code(*self),
    {
        match self {
            AppError::ServerAlreadyRunning => "SERVER_ALREADY_RUNNING",
            AppError::ServerNotRunning => "SERVER_NOT_RUNNING",
            AppError::NoAvailablePort => "NO_AVAILABLE_PORT",
            AppError::NoNetworkInterface => "NO_NETWORK_INTERFACE",
            AppError::Io(_) => "IO_ERROR",
            AppError::Serialization(_) => "SERIALIZATION_ERROR",
            AppError::NetworkError(_) => "NETWORK_ERROR",
            AppError::PermissionError(_) => "PERMISSION_ERROR",
            AppError::StoragePermissionError(_) => "STORAGE_PERMISSION_ERROR",
            AppError::AiEditError(_) => "AI_EDIT_ERROR",
            AppError::Other(_) => "OTHER_ERROR",
        }
    }

    /// The message of the error (what its display shows).
    pub fn message(&self) -> (r: String)
        ensures
            r@ == error_message(*self),
    {
        match self {
            AppError::ServerAlreadyRunning => "服务器已在运行".to_string(),
            AppError::ServerNotRunning => "服务器未运行".to_string(),
            AppError::NoAvailablePort => "无可用端口".to_string(),
            AppError::NoNetworkInterface => "无可用网络接口".to_string(),
            AppError::Io(m) => join_strs("IO错误: ", m.as_str()),
            AppError::Serialization(m) => join_strs("序列化错误: ", m.as_str()),
            AppError::NetworkError(m) => join_strs("网络错误: ", m.as_str()),
            AppError::PermissionError(m) => join_strs("权限错误: ", m.as_str()),
            AppError::StoragePermissionError(m) => join_strs("存储权限错误: ", m.as_str()),
            AppError::AiEditError(m) => join_strs("AI修图错误: ", m.as_str()),
            AppError::Other(m) => join_strs("其他错误: ", m.as_str()),
        }
    }

    /// A message for the user.
    pub fn user_message(&self) -> (r: String)
        ensures
            r@ == error_user_message(*self),
    {
        match self {
            AppError::ServerAlreadyRunning => "FTP服务器已经在运行中，请先停止当前服务器".to_string(),
            AppError::ServerNotRunning => "FTP服务器未运行，无法执行此操作".to_string(),
            AppError::NoAvailablePort => "无法找到可用的端口（1025-65535），请检查系统端口占用情况".to_string(),
            AppError::NoNetworkInterface => "未检测到可用的网络接口，请检查网络连接".to_string(),
            AppError::Io(m) => join_strs("文件系统错误: ", m.as_str()),
            AppError::Serialization(m) => join_strs("数据序列化错误: ", m.as_str()),
            AppError::NetworkError(m) => join_strs("网络错误: ", m.as_str()),
            AppError::PermissionError(m) => {
                let head = join_strs("权限错误: ", m.as_str());
                join_strs(head.as_str(), "，请检查文件或目录权限")
            },
            AppError::StoragePermissionError(m) => join_strs("存储权限错误: ", m.as_str()),
            AppError::AiEditError(m) => join_strs("AI修图错误: ", m.as_str()),
            AppError::Other(m) => m.clone(),
        }
    }

    /// Whether the error is critical.
    pub fn is_critical(&self) -> (r: bool)
        ensures
            r == error_is_critical(*self),
    {
        match self {
            AppError::PermissionError(_) | AppError::StoragePermissionError(_) => true,
            _ => false,
        }
    }
}

/// The kinds of I/O error that the application tells apart.
#[derive(Debug, Clone, Copy, PartialEq, Eq, Structural)]
pub enum IoErrorKind {
    PermissionDenied,
    NotFound,
    AlreadyExists,
    AddrInUse,
    Other,
}

/// The application error for an I/O error of the given kind whose text is `text`: a
/// permission error, an address in use as a network error, the rest as I/O errors (with a
/// prefix for a missing or an already existing file).
pub fn from_io_parts(kind: IoErrorKind, text: String) -> (r: AppError)
    ensures
        match kind {
            IoErrorKind::PermissionDenied => r matches AppError::PermissionError(m) && m@ == text@,
            IoErrorKind::NotFound => r matches AppError::Io(m) && m@ == "File not found: "@ + text@,
            IoErrorKind::AlreadyExists => r matches AppError::Io(m) && m@ == "File already exists: "@ + text@,
            IoErrorKind::AddrInUse => r matches AppError::NetworkError(m) && m@ == "Address in use: "@ + text@,
            IoErrorKind::Other => r matches AppError::Io(m) && m@ == text@,
        },
{
    match kind {
        IoErrorKind::PermissionDenied => AppError::PermissionError(text),
        IoErrorKind::NotFound => AppError::Io(join_strs("File not found: ", text.as_str())),
        IoErrorKind::AlreadyExists => AppError::Io(join_strs("File already exists: ", text.as_str())),
        IoErrorKind::AddrInUse => AppError::NetworkError(join_strs("Address in use: ", text.as_str())),
        IoErrorKind::Other => AppError::Io(text),
    }
}

#[verifier::external_type_specification]
#[verifier::external_body]
pub struct ExIoError(std::io::Error);

/// The kind of an I/O error, as `std::io::Error::kind` reports it, among the kinds the
/// application tells apart (any other kind is `Other`). Nothing is stated of it: the
/// error value is opaque here.
#[verifier::external_body]
fn io_error_kind(e: &std::io::Error) -> IoErrorKind {
    match e.kind() {
        std::io::ErrorKind::PermissionDenied => IoErrorKind::PermissionDenied,
        std::io::ErrorKind::NotFound => IoErrorKind::NotFound,
        std::io::ErrorKind::AlreadyExists => IoErrorKind::AlreadyExists,
        std::io::ErrorKind::AddrInUse => IoErrorKind::AddrInUse,
        _ => IoErrorKind::Other,
    }
}

/// The text of an I/O error, as its `Display` (through `to_string`) writes it. Nothing is
/// stated of it: the error value is opaque here.
#[verifier::external_body]
fn io_error_text(e: &std::io::Error) -> String {
    e.to_string()
}

impl From<std::io::Error> for AppError {
    /// The application error for an I/O error: its kind and text as `from_io_parts` maps them.
    fn from(err: std::io::Error) -> (r: AppError)
        ensures
            r is PermissionError || r is Io || r is NetworkError,
    {
        let kind = io_error_kind(&err);
        let text = io_error_text(&err);
        from_io_parts(kind, text)
    }
}

impl vstd::std_specs::convert::FromSpecImpl<std::io::Error> for AppError {
    /// The I/O error is opaque here, so no result is claimed for it; `from_io_parts` states
    /// the mapping.
    open spec fn obeys_from_spec() -> bool {
        false
    }

    open spec fn from_spec(v: std::io::Error) -> AppError {
        arbitrary()
    }
}


#[verifier::external_type_specification]
#[verifier::external_body]
pub struct ExJsonError(serde_json::Error);

/// The text of a JSON error, as its `Display` (through `to_string`) writes it. Nothing is
/// stated of it: the error value is opaque here.
#[verifier::external_body]
fn json_error_text(e: &serde_json::Error) -> String {
    e.to_string()
}

impl From<serde_json::Error> for AppError {
    /// A JSON error is a serialization error, with the JSON error's text.
    fn from(err: serde_json::Error) -> (r: AppError)
        ensures
            r is Serialization,
    {
        AppError::Serialization(json_error_text(&err))
    }
}

impl vstd::std_specs::convert::FromSpecImpl<serde_json::Error> for AppError {
    /// The JSON error is opaque here, so no exact result is claimed for it.
    open spec fn obeys_from_spec() -> bool {
        false
    }

    open spec fn from_spec(v: serde_json::Error) -> AppError {
        arbitrary()
    }
}

} // verus!

use camera_ftp_companion::error::{from_io_parts, AppError, IoErrorKind};

#[test]
fn io_permission_denied_maps_to_permission_error() {
    let io_err = std::io::Error::new(std::io::ErrorKind::PermissionDenied, "access denied");
    let app_err: AppError = io_err.into();
    assert!(matches!(app_err, AppError::PermissionError(msg) if msg.contains("access denied")));
}

#[test]
fn io_not_found_maps_to_io_variant() {
    let io_err = std::io::Error::new(std::io::ErrorKind::NotFound, "missing");
    let app_err: AppError = io_err.into();
    assert!(matches!(app_err, AppError::Io(msg) if msg.contains("File not found")));
}

#[test]
fn io_already_exists_maps_to_io_variant() {
    let io_err = std::io::Error::new(std::io::ErrorKind::AlreadyExists, "duplicate");
    let app_err: AppError = io_err.into();
    assert!(matches!(app_err, AppError::Io(msg) if msg.contains("File already exists")));
}

#[test]
fn io_addr_in_use_maps_to_network_error() {
    let io_err = std::io::Error::new(std::io::ErrorKind::AddrInUse, "port taken");
    let app_err: AppError = io_err.into();
    assert!(matches!(app_err, AppError::NetworkError(msg) if msg.contains("Address in use")));
}

#[test]
fn io_unexpected_maps_to_generic_io() {
    let io_err = std::io::Error::new(std::io::ErrorKind::UnexpectedEof, "truncated");
    let app_err: AppError = io_err.into();
    assert!(matches!(app_err, AppError::Io(_)));
}

#[test]
fn code_returns_correct_strings() {
    assert_eq!(AppError::ServerAlreadyRunning.code(), "SERVER_ALREADY_RUNNING");
    assert_eq!(AppError::ServerNotRunning.code(), "SERVER_NOT_RUNNING");
    assert_eq!(AppError::NoAvailablePort.code(), "NO_AVAILABLE_PORT");
    assert_eq!(AppError::NoNetworkInterface.code(), "NO_NETWORK_INTERFACE");
    assert_eq!(AppError::Io("x".into()).code(), "IO_ERROR");
    assert_eq!(AppError::NetworkError("x".into()).code(), "NETWORK_ERROR");
    assert_eq!(AppError::PermissionError("x".into()).code(), "PERMISSION_ERROR");
    assert_eq!(AppError::StoragePermissionError("x".into()).code(), "STORAGE_PERMISSION_ERROR");
    assert_eq!(AppError::AiEditError("x".into()).code(), "AI_EDIT_ERROR");
    assert_eq!(AppError::Serialization("x".into()).code(), "SERIALIZATION_ERROR");
    assert_eq!(AppError::Other("x".into()).code(), "OTHER_ERROR");
}

#[test]
fn only_permission_errors_are_critical() {
    assert!(AppError::PermissionError("x".into()).is_critical());
    assert!(AppError::StoragePermissionError("x".into()).is_critical());
    assert!(!AppError::ServerAlreadyRunning.is_critical());
    assert!(!AppError::ServerNotRunning.is_critical());
    assert!(!AppError::NoAvailablePort.is_critical());
    assert!(!AppError::NoNetworkInterface.is_critical());
    assert!(!AppError::Serialization("x".into()).is_critical());
    assert!(!AppError::Io("x".into()).is_critical());
    assert!(!AppError::NetworkError("x".into()).is_critical());
    assert!(!AppError::AiEditError("x".into()).is_critical());
    assert!(!AppError::Other("x".into()).is_critical());
}

#[test]
fn messages_and_user_messages() {
    assert_eq!(AppError::ServerAlreadyRunning.message(), "服务器已在运行");
    assert_eq!(AppError::Io("disk".into()).message(), "IO错误: disk");
    assert_eq!(AppError::Other("plain".into()).message(), "其他错误: plain");
    assert_eq!(AppError::Other("plain".into()).user_message(), "plain");
    assert_eq!(
        AppError::PermissionError("denied".into()).user_message(),
        "权限错误: denied，请检查文件或目录权限"
    );
    assert_eq!(
        AppError::NoAvailablePort.user_message(),
        "无法找到可用的端口（1025-65535），请检查系统端口占用情况"
    );
}

#[test]
fn io_parts_mapping_is_exact() {
    assert!(matches!(from_io_parts(IoErrorKind::NotFound, "x".into()), AppError::Io(m) if m == "File not found: x"));
    assert!(matches!(from_io_parts(IoErrorKind::AlreadyExists, "y".into()), AppError::Io(m) if m == "File already exists: y"));
    assert!(matches!(from_io_parts(IoErrorKind::AddrInUse, "z".into()), AppError::NetworkError(m) if m == "Address in use: z"));
    assert!(matches!(from_io_parts(IoErrorKind::Other, "w".into()), AppError::Io(m) if m == "w"));
}

#[test]
fn serde_json_error_maps_to_serialization() {
    let json_err = serde_json::from_str::<i32>("not a number").unwrap_err();
    let app_err: AppError = json_err.into();
    assert!(matches!(app_err, AppError::Serialization(_)));
}

use camera_ftp_companion::config::{AppConfig, Platform};
use camera_ftp_companion::error::AppError;
use camera_ftp_companion::ftp_server::{
    decide_port, login_check, requested_port, searched_port, server_auth, server_config, server_info_for,
    validate_can_start, validate_can_stop, LoginCheck, PortDecision,
};
use camera_ftp_companion::ftp_types::{FtpAuthConfig, ServerStatus};

#[test]
fn port_selection() {
    let mut config = AppConfig::default();
    assert_eq!(requested_port(&config, Platform::Windows), 21);
    assert_eq!(requested_port(&config, Platform::Android), 2121);
    config.advanced_connection.enabled = true;
    config.port = 3000;
    assert_eq!(requested_port(&config, Platform::Windows), 3000);
    assert_eq!(decide_port(21, true, false).unwrap(), PortDecision::Use(21));
    assert_eq!(decide_port(21, false, true).unwrap(), PortDecision::Search);
    assert!(matches!(decide_port(21, false, false), Err(AppError::NoAvailablePort)));
    assert_eq!(searched_port(Some(1025)).unwrap(), 1025);
    assert!(matches!(searched_port(None), Err(AppError::NoAvailablePort)));
}

#[test]
fn server_configuration_and_auth() {
    let mut config = AppConfig::default();
    assert_eq!(server_auth(&config), FtpAuthConfig::Anonymous);
    config.advanced_connection.auth.anonymous = false;
    config.advanced_connection.auth.username = "cam".to_string();
    config.advanced_connection.auth.password_hash = "h".to_string();
    assert_eq!(server_auth(&config), FtpAuthConfig::Anonymous);
    config.advanced_connection.enabled = true;
    let sc = server_config(&config, 2121, "/photos".to_string());
    assert_eq!(sc.idle_timeout_seconds, 600);
    assert_eq!(sc.auth, FtpAuthConfig::Authenticated { username: "cam".to_string(), password_hash: "h".to_string() });
}

#[test]
fn start_stop_and_login_rules() {
    assert!(matches!(validate_can_start(ServerStatus::Running), Err(AppError::ServerAlreadyRunning)));
    assert!(validate_can_start(ServerStatus::Stopped).is_ok());
    assert!(matches!(validate_can_stop(ServerStatus::Stopped), Err(AppError::ServerNotRunning)));
    assert!(validate_can_stop(ServerStatus::Running).is_ok());
    assert_eq!(login_check(&FtpAuthConfig::Anonymous, "anyone"), LoginCheck::Accept);
    let auth = FtpAuthConfig::Authenticated { username: "cam".to_string(), password_hash: "h".to_string() };
    assert_eq!(login_check(&auth, "cam"), LoginCheck::VerifyPassword("h".to_string()));
    assert_eq!(login_check(&auth, "other"), LoginCheck::Reject);
}

#[test]
fn server_info_only_while_running() {
    assert!(server_info_for(ServerStatus::Stopped, Some(21), None, &None).is_none());
    assert!(server_info_for(ServerStatus::Running, None, None, &None).is_none());
    let info = server_info_for(ServerStatus::Running, Some(2121), Some("10.0.0.2".to_string()), &None).unwrap();
    assert_eq!(info.url, "ftp://10.0.0.2:2121");
    assert_eq!(info.username, "anonymous");
    let auth = Some(FtpAuthConfig::Authenticated { username: "cam".to_string(), password_hash: "h".to_string() });
    let info = server_info_for(ServerStatus::Running, Some(21), Some("fe80::1".to_string()), &auth).unwrap();
    assert_eq!(info.ip, "127.0.0.1");
    assert_eq!(info.username, "cam");
    assert_eq!(info.password_info, "(配置密码)");
}

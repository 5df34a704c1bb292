use camera_ftp_companion::config::AppConfig;
use camera_ftp_companion::error::AppError;
use camera_ftp_companion::ftp_server::{
    server_config, server_runtime_view, started_server_credentials, startup_wait_step, stop_outcome, ServerLifecycle, StartupSignal,
    StopStep, WaitStep,
};
use camera_ftp_companion::ftp_sessions::SessionRegistry;
use camera_ftp_companion::ftp_types::{ServerInfo, ServerStateSnapshot, ServerStats, ServerStatus};

#[test]
fn sessions_count_each_trace_id_once() {
    let mut s = SessionRegistry::new();
    assert_eq!(s.len(), 0);
    assert_eq!(s.logged_in("a".to_string()), (true, 1));
    assert_eq!(s.logged_in("b".to_string()), (true, 2));
    assert_eq!(s.logged_in("a".to_string()), (false, 2));
    assert_eq!(s.logged_out("c"), (false, 2));
    assert_eq!(s.logged_out("a"), (true, 1));
    assert_eq!(s.logged_out("a"), (false, 1));
    assert_eq!(s.len(), 1);
    s.clear();
    assert_eq!(s.len(), 0);
}

#[test]
fn logout_undoes_a_new_login() {
    let mut s = SessionRegistry::new();
    s.logged_in("x".to_string());
    let (new, count) = s.logged_in("y".to_string());
    assert!(new);
    assert_eq!(count, 2);
    assert_eq!(s.logged_out("y"), (true, 1));
    assert_eq!(s.logged_in("y".to_string()), (true, 2));
}

fn config() -> camera_ftp_companion::ftp_server::ServerConfig {
    server_config(&AppConfig::default(), 2121, "/tmp/ftp".to_string())
}

#[test]
fn server_lifecycle_start_and_stop() {
    let mut l = ServerLifecycle::new();
    assert_eq!(l.status, ServerStatus::Stopped);
    assert!(l.begin_start().is_ok());
    assert_eq!(l.status, ServerStatus::Starting);
    l.finish_start(config(), 2121);
    assert_eq!(l.status, ServerStatus::Running);
    assert_eq!(l.bound_port, Some(2121));
    l.sessions.logged_in("t1".to_string());
    assert_eq!(l.begin_stop().unwrap(), StopStep::AwaitServerTask);
    assert_eq!(l.status, ServerStatus::Stopping);
    assert!(!l.task_running);
    l.finish_stop();
    assert_eq!(l.status, ServerStatus::Stopped);
    assert!(l.config.is_none());
    assert_eq!(l.bound_port, None);
    assert_eq!(l.sessions.len(), 0);
}

#[test]
fn refused_start_and_stop_change_nothing() {
    let mut l = ServerLifecycle::new();
    assert!(matches!(l.begin_stop(), Err(AppError::ServerNotRunning)));
    assert_eq!(l.status, ServerStatus::Stopped);
    l.begin_start().unwrap();
    l.finish_start(config(), 21);
    assert!(matches!(l.begin_start(), Err(AppError::ServerAlreadyRunning)));
    assert_eq!(l.status, ServerStatus::Running);
    assert_eq!(l.bound_port, Some(21));
    assert!(l.task_running);
}

#[test]
fn stop_without_server_task_is_immediate() {
    let mut l = ServerLifecycle::new();
    l.begin_start().unwrap();
    l.finish_start(config(), 2121);
    l.task_running = false;
    assert_eq!(l.begin_stop().unwrap(), StopStep::Stopped);
    assert_eq!(l.status, ServerStatus::Stopped);
    assert!(l.config.is_none());
}

#[test]
fn failed_startup_resets_to_stopped() {
    let mut l = ServerLifecycle::new();
    l.begin_start().unwrap();
    l.startup_failed();
    assert_eq!(l.status, ServerStatus::Stopped);
    assert!(l.config.is_none());
    assert!(l.begin_start().is_ok());
}

#[test]
fn lifecycle_snapshot_and_info() {
    let mut l = ServerLifecycle::new();
    let stats = ServerStats { active_connections: 5, total_uploads: 3, total_bytes_received: 100, last_uploaded_file: Some("a.jpg".to_string()) };
    let snap = l.snapshot(&stats);
    assert!(!snap.is_running);
    assert_eq!(snap.connected_clients, 0);
    assert!(l.server_info(None).is_none());
    l.begin_start().unwrap();
    l.finish_start(config(), 2121);
    l.sessions.logged_in("s".to_string());
    let snap = l.snapshot(&stats);
    assert!(snap.is_running);
    assert_eq!(snap.connected_clients, 1);
    assert_eq!(snap.files_received, 3);
    assert_eq!(snap.bytes_received, 100);
    let info = l.server_info(Some("192.168.1.5".to_string())).unwrap();
    assert_eq!(info.ip, "192.168.1.5");
    assert_eq!(info.port, 2121);
    assert_eq!(info.url, "ftp://192.168.1.5:2121");
    assert_eq!(info.username, "anonymous");
    let info = l.server_info(None).unwrap();
    assert_eq!(info.ip, "127.0.0.1");
}

#[test]
fn startup_wait_steps() {
    assert!(matches!(startup_wait_step(StartupSignal::Pending, false, false), WaitStep::Retry));
    assert!(matches!(startup_wait_step(StartupSignal::Pending, false, true), WaitStep::Done(Ok(()))));
    match startup_wait_step(StartupSignal::Pending, true, true) {
        WaitStep::Done(Err(AppError::Other(m))) => assert_eq!(m, "FTP server startup timed out"),
        _ => panic!("expected a timeout"),
    }
    match startup_wait_step(StartupSignal::Dropped, false, true) {
        WaitStep::Done(Err(AppError::Other(m))) => assert_eq!(m, "FTP server startup handshake dropped unexpectedly"),
        _ => panic!("expected a dropped handshake"),
    }
    let reported = StartupSignal::Reported(Err(AppError::Other("FTP server exited before becoming ready".to_string())));
    match startup_wait_step(reported, false, true) {
        WaitStep::Done(Err(AppError::Other(m))) => assert_eq!(m, "FTP server exited before becoming ready"),
        _ => panic!("expected the reported error"),
    }
    assert!(matches!(startup_wait_step(StartupSignal::Reported(Ok(())), true, false), WaitStep::Done(Ok(()))));
}

#[test]
fn credentials_reported_after_start() {
    let mut c = AppConfig::default();
    assert_eq!(started_server_credentials(&c), (None, None));
    c.advanced_connection.enabled = true;
    c.advanced_connection.auth.anonymous = true;
    assert_eq!(started_server_credentials(&c), (None, None));
    c.advanced_connection.auth.anonymous = false;
    c.advanced_connection.auth.username = "cam".to_string();
    assert_eq!(started_server_credentials(&c), (Some("cam".to_string()), Some("(配置密码)".to_string())));
}

#[test]
fn stop_request_outcomes() {
    let (r, drop_handle) = stop_outcome(Ok(()), false);
    assert!(r.is_ok() && drop_handle);
    let (r, drop_handle) = stop_outcome(Err(AppError::ServerNotRunning), false);
    assert!(r.is_ok() && drop_handle);
    let (r, drop_handle) = stop_outcome(Err(AppError::Other("busy".to_string())), true);
    assert!(matches!(r, Err(AppError::Other(m)) if m == "busy"));
    assert!(!drop_handle);
}

#[test]
fn runtime_view_hides_info_of_stopped_server() {
    let v = server_runtime_view(None, None);
    assert!(v.server_info.is_none());
    assert_eq!(v.stats, ServerStateSnapshot::default());
    let info = ServerInfo::new("10.0.0.2".to_string(), 21, None, None);
    let running = ServerStateSnapshot { is_running: true, connected_clients: 2, files_received: 1, bytes_received: 9, last_file: None };
    let v = server_runtime_view(Some(running.clone()), Some(info.clone()));
    assert_eq!(v.server_info.unwrap().port, 21);
    assert_eq!(v.stats, running);
    let stopped = ServerStateSnapshot { is_running: false, ..running };
    let v = server_runtime_view(Some(stopped), Some(info));
    assert!(v.server_info.is_none());
}

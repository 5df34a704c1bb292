use camera_ftp_companion::config::AuthConfig;
use camera_ftp_companion::ftp_types::{
    advertised_server_addr, build_server_snapshot, runtime_state_to_snapshot, FtpAuthConfig, ServerInfo,
    ServerRuntimeSnapshot, ServerStateSnapshot, ServerStats, ServerStatus,
};
use camera_ftp_companion::ftp_events::{
    apply_stats_command, event_type_name, fan_out_runtime_state, should_handle, tray_update, RuntimeStateView,
    StatsCommand,
};
use camera_ftp_companion::ftp_types::DomainEvent;
use camera_ftp_companion::net::{
    decimal, format_ipv4_ftp_url, format_ipv4_socket_addr, is_ipv4_address, normalize_ipv4_host, parse_bind_addr,
    parse_u16,
};

#[test]
fn normalize_ipv4_helpers_enforce_ipv4_contract() {
    assert_eq!(normalize_ipv4_host("192.168.1.8"), "192.168.1.8");
    assert_eq!(normalize_ipv4_host("::1"), "127.0.0.1");
    assert_eq!(format_ipv4_socket_addr("::1", 2121), "127.0.0.1:2121");
    assert_eq!(format_ipv4_ftp_url("::1", 2121), "ftp://127.0.0.1:2121");
}

#[test]
fn stats_after_stop_do_not_restore_running_state() {
    let mut runtime_state = ServerRuntimeSnapshot::default();
    runtime_state.record_server_started("192.168.1.8:2121".to_string());
    runtime_state.record_server_stopped();
    runtime_state.record_stats(ServerStats { active_connections: 2, ..Default::default() });

    let snapshot = runtime_state.current_snapshot();

    assert!(!snapshot.is_running);
    assert_eq!(snapshot.connected_clients, 0);
}

#[test]
fn stats_recorded_after_stop_are_ignored_for_runtime_snapshot() {
    let mut runtime_state = ServerRuntimeSnapshot::default();
    runtime_state.record_server_started("192.168.1.8:2121".to_string());
    runtime_state.record_server_stopped();
    runtime_state.record_stats(ServerStats {
        active_connections: 3,
        total_uploads: 7,
        total_bytes_received: 1024,
        last_uploaded_file: Some("late.jpg".to_string()),
    });

    let snapshot = runtime_state.current_snapshot();

    assert_eq!(snapshot, ServerStateSnapshot::default());
    assert_eq!(runtime_state, ServerRuntimeSnapshot::default());
}

#[test]
fn runtime_snapshot_reads_bind_addr_and_stats_atomically() {
    let mut runtime_state = ServerRuntimeSnapshot::default();
    runtime_state.record_server_started("192.168.1.8:2121".to_string());
    runtime_state.record_stats(ServerStats {
        active_connections: 3,
        total_uploads: 7,
        total_bytes_received: 1024,
        last_uploaded_file: Some("latest.jpg".to_string()),
    });

    assert_eq!(
        runtime_state,
        ServerRuntimeSnapshot {
            bind_addr: Some("192.168.1.8:2121".to_string()),
            is_running: true,
            stats: Some(ServerStats {
                active_connections: 3,
                total_uploads: 7,
                total_bytes_received: 1024,
                last_uploaded_file: Some("latest.jpg".to_string()),
            }),
        }
    );
}

#[test]
fn server_info_new_builds_ipv4_ftp_url() {
    let info = ServerInfo::new("192.168.1.8".to_string(), 2121, None, None);
    assert_eq!(info.url, "ftp://192.168.1.8:2121");
    assert_eq!(info.username, "anonymous");
    assert_eq!(info.password_info, "(任意密码)");
}

#[test]
fn ftp_auth_config_to_display_credentials() {
    let anonymous = FtpAuthConfig::Anonymous;
    assert_eq!(anonymous.to_display_credentials(), (None, None));

    let authed = FtpAuthConfig::Authenticated {
        username: "admin".to_string(),
        password_hash: "hash123".to_string(),
    };
    let (user, pass_info) = authed.to_display_credentials();
    assert_eq!(user.as_deref(), Some("admin"));
    assert_eq!(pass_info.as_deref(), Some("(配置密码)"));
}

#[test]
fn future_server_info_contract_falls_back_to_ipv4_loopback_for_ipv6_like_host() {
    let info = ServerInfo::new("::1".to_string(), 2121, None, None);
    assert_eq!(info.ip, "127.0.0.1");
    assert_eq!(info.url, "ftp://127.0.0.1:2121");
}

#[test]
fn future_parse_bind_addr_contract_reads_ipv4_host_and_port() {
    assert_eq!(parse_bind_addr("192.168.1.8:2121"), Some(("192.168.1.8".to_string(), 2121)));
}

#[test]
fn future_parse_bind_addr_contract_rejects_ipv6_like_values() {
    assert_eq!(parse_bind_addr("::1:2121"), None);
    assert_eq!(parse_bind_addr("[::1]:2121"), None);
}

#[test]
fn future_parse_bind_addr_contract_rejects_malformed_values() {
    assert_eq!(parse_bind_addr("192.168.1.8"), None);
    assert_eq!(parse_bind_addr("192.168.1.8:not-a-port"), None);
    assert_eq!(parse_bind_addr("not-an-ip:2121"), None);
}

#[test]
fn ipv4_and_port_grammar() {
    assert!(is_ipv4_address("0.0.0.0"));
    assert!(is_ipv4_address("255.255.255.255"));
    assert!(!is_ipv4_address("256.1.1.1"));
    assert!(!is_ipv4_address("01.1.1.1"));
    assert!(!is_ipv4_address("1.1.1"));
    assert!(!is_ipv4_address("1.1.1.1.1"));
    assert!(!is_ipv4_address("1..1.1"));
    assert!(!is_ipv4_address("1234.1.1.1"));
    assert_eq!(parse_u16("+21"), Some(21));
    assert_eq!(parse_u16("0002121"), Some(2121));
    assert_eq!(parse_u16("65535"), Some(65535));
    assert_eq!(parse_u16("65536"), None);
    assert_eq!(parse_u16("+"), None);
    assert_eq!(parse_u16("-1"), None);
    assert_eq!(parse_u16(""), None);
    assert_eq!(decimal(0), "0");
    assert_eq!(decimal(65535), "65535");
    assert_eq!(decimal(u64::MAX), "18446744073709551615");
}

#[test]
fn build_server_snapshot_keeps_stopped_state_even_with_nonzero_stats() {
    let stats = ServerStats {
        active_connections: 9,
        total_uploads: 4,
        total_bytes_received: 1024,
        last_uploaded_file: Some("late.jpg".to_string()),
    };

    let snapshot = build_server_snapshot(ServerStatus::Stopped, &stats, 0);

    assert!(!snapshot.is_running);
    assert_eq!(snapshot.connected_clients, 0);
    assert_eq!(snapshot.files_received, 4);
    assert_eq!(snapshot.bytes_received, 1024);
    assert_eq!(snapshot.last_file.as_deref(), Some("late.jpg"));
}

#[test]
fn advertised_server_addr_prefers_usable_ip_over_unspecified_bind_address() {
    assert_eq!(
        advertised_server_addr(Some((0, 0, 0, 0)), 2121, Some("192.168.1.23".to_string())),
        "192.168.1.23:2121"
    );
}

#[test]
fn advertised_server_addr_falls_back_to_loopback_when_bind_address_is_unspecified() {
    assert_eq!(advertised_server_addr(Some((0, 0, 0, 0)), 2121, None), "127.0.0.1:2121");
}

#[test]
fn advertised_server_addr_rejects_ipv6_like_recommended_ip() {
    assert_eq!(advertised_server_addr(Some((0, 0, 0, 0)), 2121, Some("::1".to_string())), "127.0.0.1:2121");
    assert_eq!(advertised_server_addr(Some((10, 0, 0, 7)), 21, None), "10.0.0.7:21");
    assert_eq!(advertised_server_addr(None, 21, None), "127.0.0.1:21");
}

#[test]
fn auth_mode_follows_settings() {
    let mut auth = AuthConfig::default();
    assert_eq!(FtpAuthConfig::from_auth(&auth), FtpAuthConfig::Anonymous);
    auth.anonymous = false;
    auth.username = "  ".to_string();
    auth.password_hash = "h".to_string();
    assert_eq!(FtpAuthConfig::from_auth(&auth), FtpAuthConfig::Anonymous);
    auth.username = "cam".to_string();
    assert_eq!(
        FtpAuthConfig::from_auth(&auth),
        FtpAuthConfig::Authenticated { username: "cam".to_string(), password_hash: "h".to_string() }
    );
    auth.password_hash = String::new();
    assert_eq!(FtpAuthConfig::from_auth(&auth), FtpAuthConfig::Anonymous);
}

#[test]
fn runtime_state_fanout_skips_server_started_for_invalid_bind_addr() {
    let started_state = ServerRuntimeSnapshot {
        bind_addr: Some("::1:2121".to_string()),
        is_running: true,
        stats: None,
    };

    let plan = fan_out_runtime_state(&None, &started_state);

    assert!(plan.server_started.is_none());
    assert_eq!(
        plan.stats_update,
        Some(ServerStateSnapshot { is_running: true, ..ServerStateSnapshot::default() })
    );
    assert!(!plan.server_stopped);
}

#[test]
fn fanout_announces_start_stats_and_stop() {
    let running = ServerRuntimeSnapshot {
        bind_addr: Some("192.168.1.8:2121".to_string()),
        is_running: true,
        stats: Some(ServerStats { active_connections: 1, ..Default::default() }),
    };
    let plan = fan_out_runtime_state(&None, &running);
    assert_eq!(plan.server_started, Some(("192.168.1.8".to_string(), 2121)));
    assert!(plan.stats_update.is_some());
    assert!(plan.sync_android.is_some());

    let previous = Some(RuntimeStateView::of(&running));
    let again = fan_out_runtime_state(&previous, &running);
    assert!(again.server_started.is_none());
    assert!(again.stats_update.is_none());
    assert!(again.sync_android.is_none());

    let stopped = ServerRuntimeSnapshot::default();
    let stop = fan_out_runtime_state(&previous, &stopped);
    assert!(stop.server_stopped);
    assert!(stop.stats_update.is_none());
    assert_eq!(stop.sync_android, Some(ServerStateSnapshot::default()));
    assert_eq!(runtime_state_to_snapshot(&stopped), ServerStateSnapshot::default());
}

#[test]
fn tray_follows_start_clients_and_stop() {
    let mut s = ServerStateSnapshot { is_running: true, connected_clients: 2, ..ServerStateSnapshot::default() };
    let p = tray_update(&None, &s);
    assert!(p.server_started && !p.server_stopped);
    assert_eq!(p.update_clients, Some(2));
    let same = tray_update(&Some(s.clone()), &s);
    assert!(!same.server_started);
    assert_eq!(same.update_clients, None);
    let prev = s.clone();
    s.connected_clients = 3;
    assert_eq!(tray_update(&Some(prev), &s).update_clients, Some(3));
    let stop = tray_update(&Some(s.clone()), &ServerStateSnapshot::default());
    assert!(stop.server_stopped);
    assert_eq!(stop.update_clients, None);
}

#[test]
fn events_reach_interested_handlers() {
    let up = DomainEvent::FileUploaded { path: "a.jpg".to_string(), size: 3 };
    let idx = DomainEvent::FileIndexChanged { count: 1, latest_filename: None };
    assert_eq!(event_type_name(&up), "FileUploaded");
    assert_eq!(event_type_name(&idx), "FileIndexChanged");
    assert!(should_handle(&None, &up));
    assert!(should_handle(&Some(vec!["FileUploaded"]), &up));
    assert!(!should_handle(&Some(vec!["FileUploaded"]), &idx));
}

#[test]
fn stats_commands_update_counters() {
    let mut stats = ServerStats::default();
    assert!(apply_stats_command(&mut stats, StatsCommand::RecordUpload { path: "a.jpg".to_string(), bytes: 10 }));
    assert!(apply_stats_command(&mut stats, StatsCommand::RecordUpload { path: "b.jpg".to_string(), bytes: 5 }));
    assert!(apply_stats_command(&mut stats, StatsCommand::UpdateConnectionCount { count: 4 }));
    assert!(!apply_stats_command(&mut stats, StatsCommand::RecordDelete { path: "a.jpg".to_string() }));
    assert_eq!(stats.total_uploads, 2);
    assert_eq!(stats.total_bytes_received, 15);
    assert_eq!(stats.last_uploaded_file.as_deref(), Some("b.jpg"));
    assert_eq!(stats.active_connections, 4);
    assert!(ServerStatus::Running.is_running());
    assert!(!ServerStatus::Stopping.is_running());
}

#[test]
fn upload_and_delete_reactions() {
    let r = camera_ftp_companion::ftp_events::upload_reaction("DCIM/IMG_1.ARW");
    assert!(r.process_image && r.color_grade);
    let r = camera_ftp_companion::ftp_events::upload_reaction("DCIM/IMG_1.jpg");
    assert!(r.process_image && !r.color_grade);
    let r = camera_ftp_companion::ftp_events::upload_reaction("notes.txt");
    assert!(!r.process_image && !r.color_grade);
    assert!(camera_ftp_companion::ftp_events::refresh_after_delete("a/b.heic"));
    assert!(!camera_ftp_companion::ftp_events::refresh_after_delete("a/b.mov"));
}

#[test]
fn reported_address_reads_back() {
    let a = camera_ftp_companion::net::format_ipv4_socket_addr("192.168.1.2", 2121);
    assert_eq!(camera_ftp_companion::net::parse_bind_addr(&a), Some(("192.168.1.2".to_string(), 2121)));
    let a = camera_ftp_companion::net::format_ipv4_socket_addr("fe80::1", 21);
    assert_eq!(a, "127.0.0.1:21");
    assert_eq!(camera_ftp_companion::net::parse_bind_addr(&a), Some(("127.0.0.1".to_string(), 21)));
    let a = camera_ftp_companion::net::format_ipv4_socket_addr("10.0.0.1", 0);
    assert_eq!(camera_ftp_companion::net::parse_bind_addr(&a), Some(("10.0.0.1".to_string(), 0)));
}

#[test]
fn stopped_runtime_snapshot_discards_stats_for_coherent_snapshots() {
    let started_state = ServerRuntimeSnapshot {
        bind_addr: Some("127.0.0.1:2121".to_string()),
        is_running: true,
        stats: None,
    };
    let stopped_state = ServerRuntimeSnapshot {
        bind_addr: None,
        is_running: false,
        stats: Some(ServerStats {
            active_connections: 0,
            total_uploads: 2,
            total_bytes_received: 128,
            last_uploaded_file: Some("late.jpg".to_string()),
        }),
    };

    let first = fan_out_runtime_state(&None, &started_state);
    let previous = Some(RuntimeStateView {
        bind_addr: started_state.bind_addr.clone(),
        snapshot: runtime_state_to_snapshot(&started_state),
    });
    let second = fan_out_runtime_state(&previous, &stopped_state);

    // frontend events, in order: server-started, stats-update, server-stopped
    assert_eq!(first.server_started, Some(("127.0.0.1".to_string(), 2121)));
    assert_eq!(first.stats_update, Some(ServerStateSnapshot { is_running: true, ..ServerStateSnapshot::default() }));
    assert!(!first.server_stopped);
    assert!(second.server_started.is_none());
    assert!(second.stats_update.is_none());
    assert!(second.server_stopped);
    // Android service snapshots
    assert_eq!(first.sync_android, Some(ServerStateSnapshot { is_running: true, ..ServerStateSnapshot::default() }));
    assert_eq!(second.sync_android, Some(ServerStateSnapshot::default()));
}

#[test]
fn statistics_follow_a_sequence_of_commands() {
    let mut stats = ServerStats::default();
    let cmds = vec![
        StatsCommand::UpdateConnectionCount { count: 2 },
        StatsCommand::RecordUpload { path: "a.jpg".to_string(), bytes: 10 },
        StatsCommand::RecordDownload { path: "a.jpg".to_string(), bytes: 10 },
        StatsCommand::RecordUpload { path: "b.jpg".to_string(), bytes: 32 },
        StatsCommand::RecordDelete { path: "a.jpg".to_string() },
        StatsCommand::UpdateConnectionCount { count: 1 },
        StatsCommand::RecordRename { from: "b.jpg".to_string(), to: "c.jpg".to_string() },
    ];
    for cmd in cmds {
        apply_stats_command(&mut stats, cmd);
    }
    assert_eq!(
        stats,
        ServerStats { active_connections: 1, total_uploads: 2, total_bytes_received: 42, last_uploaded_file: Some("b.jpg".to_string()) }
    );
}

use ciconia::metric::{SSHStatus, Traffic, TunnelMetric, TunnelState};
use ciconia::settings::{AppSettings, SettingsManager};
use ciconia::status::{TrayIcon, TrayStatusPayload, TunnelStatusResponse, TRAY_INTERVAL_SECS};

fn metric(state: TunnelState) -> TunnelMetric {
    TunnelMetric {
        tunnel_state: state,
        ssh_status: SSHStatus::Disconnected,
        traffic: Traffic { send_bytes: 0, recv_bytes: 0 },
    }
}

#[test]
fn status_of_a_running_healthy_tunnel() {
    let m = TunnelMetric {
        tunnel_state: TunnelState::Running,
        ssh_status: SSHStatus::Healthy { latency_ms: 37 },
        traffic: Traffic { send_bytes: 16, recv_bytes: 32 },
    };
    assert_eq!(
        TunnelStatusResponse::from(&m),
        TunnelStatusResponse {
            is_running: true,
            ping_ms: Some(37),
            state: "running".to_string(),
            send_bytes: 16,
            recv_bytes: 32,
        }
    );
}

#[test]
fn status_of_a_failed_tunnel() {
    let m = TunnelMetric {
        tunnel_state: TunnelState::Error("Container IP not found".to_string()),
        ssh_status: SSHStatus::Disconnected,
        traffic: Traffic { send_bytes: 0, recv_bytes: 0 },
    };
    assert_eq!(
        TunnelStatusResponse::from(&m),
        TunnelStatusResponse {
            is_running: false,
            ping_ms: None,
            state: "error: Container IP not found".to_string(),
            send_bytes: 0,
            recv_bytes: 0,
        }
    );
}

#[test]
fn status_of_the_other_states() {
    assert_eq!(TunnelStatusResponse::from(&metric(TunnelState::Stopped)).state, "stopped");
    assert_eq!(TunnelStatusResponse::from(&metric(TunnelState::Starting)).state, "starting");
    assert_eq!(TunnelStatusResponse::from(&metric(TunnelState::Stopping)).state, "stopping");
    assert!(!TunnelStatusResponse::from(&metric(TunnelState::Starting)).is_running);
}

#[test]
fn status_of_an_unstable_tunnel_has_no_ping() {
    let m = TunnelMetric {
        tunnel_state: TunnelState::Running,
        ssh_status: SSHStatus::Unstable { reason: "Timeout/Err".to_string() },
        traffic: Traffic { send_bytes: 1, recv_bytes: 2 },
    };
    let r = TunnelStatusResponse::from(&m);
    assert!(r.is_running);
    assert_eq!(r.ping_ms, None);
}

#[test]
fn status_counters_stop_at_the_largest_u64() {
    let m = TunnelMetric {
        tunnel_state: TunnelState::Running,
        ssh_status: SSHStatus::Disconnected,
        traffic: Traffic { send_bytes: u64::MAX as u128, recv_bytes: u64::MAX as u128 + 1 },
    };
    let r = TunnelStatusResponse::from(&m);
    assert_eq!(r.send_bytes, u64::MAX);
    assert_eq!(r.recv_bytes, u64::MAX);
}

#[test]
fn tray_counts_by_state() {
    let all = vec![
        (1u128, metric(TunnelState::Running)),
        (2, metric(TunnelState::Error("x".to_string()))),
        (3, metric(TunnelState::Stopped)),
        (4, metric(TunnelState::Starting)),
        (5, metric(TunnelState::Running)),
        (6, metric(TunnelState::Stopping)),
    ];
    assert_eq!(
        TrayStatusPayload::from_tunnel_metric_map(&all),
        TrayStatusPayload { active_count: 2, unavailable_count: 3, error_count: 1 }
    );
}

#[test]
fn tray_counts_of_no_tunnels() {
    assert_eq!(
        TrayStatusPayload::from_tunnel_metric_map(&vec![]),
        TrayStatusPayload { active_count: 0, unavailable_count: 0, error_count: 0 }
    );
}

#[test]
fn tray_summary_is_sent_only_while_tunnels_exist() {
    assert_eq!(TRAY_INTERVAL_SECS, 5);
    assert!(!TrayStatusPayload { active_count: 0, unavailable_count: 0, error_count: 0 }.has_tunnels());
    assert!(TrayStatusPayload { active_count: 1, unavailable_count: 0, error_count: 0 }.has_tunnels());
    assert!(TrayStatusPayload { active_count: 0, unavailable_count: 1, error_count: 0 }.has_tunnels());
    assert!(TrayStatusPayload { active_count: 0, unavailable_count: 0, error_count: 1 }.has_tunnels());
}

#[test]
fn tray_text_and_icon() {
    let p = TrayStatusPayload { active_count: 2, unavailable_count: 0, error_count: 1 };
    assert_eq!(p.status_text(), "🔴 2 Active, 1 Failed");
    assert_eq!(p.icon(), TrayIcon::Red);
    let p = TrayStatusPayload { active_count: 0, unavailable_count: 4, error_count: 3 };
    assert_eq!(p.status_text(), "🔴 3 Tunnels Failed");
    assert_eq!(p.icon(), TrayIcon::Red);
    let p = TrayStatusPayload { active_count: 12, unavailable_count: 1, error_count: 0 };
    assert_eq!(p.status_text(), "🟢 12 Active Tunnels");
    assert_eq!(p.icon(), TrayIcon::Green);
    let p = TrayStatusPayload { active_count: 0, unavailable_count: 5, error_count: 0 };
    assert_eq!(p.status_text(), "⚪️ No Active Tunnels");
    assert_eq!(p.icon(), TrayIcon::Gray);
}

#[test]
fn settings_of_a_fresh_installation() {
    assert_eq!(
        AppSettings::default(),
        AppSettings {
            launch_at_login: false,
            minimize_to_tray_on_close: true,
            keep_alive_interval: 60,
            default_ssh_key: None,
            strict_host_key_checking: false,
            connection_timeout: 10,
            auto_reconnect: true,
            theme: "system".to_string(),
            language: "en".to_string(),
        }
    );
}

#[test]
fn settings_manager_starts_from_the_store_or_the_defaults() {
    assert_eq!(SettingsManager::new(None).get_settings(), AppSettings::default());
    let stored = AppSettings { theme: "dark".to_string(), ..AppSettings::default() };
    assert_eq!(SettingsManager::new(Some(stored.clone())).get_settings(), stored);
}

#[test]
fn settings_manager_hands_out_what_was_saved() {
    let mut m = SettingsManager::new(None);
    let new = AppSettings {
        launch_at_login: true,
        default_ssh_key: Some("/home/u/.ssh/id_ed25519".to_string()),
        language: "zh".to_string(),
        ..AppSettings::default()
    };
    m.save_settings(new.clone());
    assert_eq!(m.get_settings(), new);
    assert_eq!(m.get_settings(), new);
}

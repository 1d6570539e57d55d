use ciconia::actor::{ActorAction, ActorEvent, Step};
use ciconia::error::{ErrorKind, TunnelError};
use ciconia::manager::{actor_dead_error, not_found_error, TunnelManager};
use ciconia::metric::{SSHEvent, SSHStatus, Traffic, TunnelCommand, TunnelMetric, TunnelState};
use ciconia::model::TunnelConfig;
use ciconia::server_manager::ServerManager;
use ciconia::status::TrayStatusPayload;

const ID: &str = "550e8400-e29b-41d4-a716-446655440000";
const KEY: u128 = 0x550e8400_e29b_41d4_a716_446655440000;
const OTHER: &str = "00000000-0000-0000-0000-000000000002";

fn config(id: &str) -> TunnelConfig {
    TunnelConfig {
        id: id.to_string(),
        name: "t".to_string(),
        mode: "standard".to_string(),
        ssh_host: "127.0.0.1".to_string(),
        ssh_port: 2222,
        ssh_username: "user".to_string(),
        auth_type: "password".to_string(),
        ssh_password: Some("pw".to_string()),
        ssh_key_path: None,
        local_port: Some(15432),
        target_host: Some("10.0.0.5".to_string()),
        target_port: Some(5432),
        container_name: None,
        container_port: None,
    }
}

fn not_found(id: &str) -> TunnelError {
    TunnelError { kind: ErrorKind::NotFound, message: format!("Tunnel with id {} not found", id) }
}

fn actor_dead() -> TunnelError {
    TunnelError { kind: ErrorKind::Internal, message: "Actor died, SendError { .. }".to_string() }
}

fn run(m: &mut TunnelManager, id: u128) {
    m.start_tunnel(id).unwrap();
    m.deliver(id, ActorEvent::SessionOpened).unwrap();
    m.deliver(id, ActorEvent::Forwarding).unwrap();
    assert_eq!(m.metric(id).tunnel_state, TunnelState::Running);
}

#[test]
fn registry_errors() {
    assert_eq!(not_found_error(KEY), not_found(ID));
    assert_eq!(
        not_found_error(0).message,
        "Tunnel with id 00000000-0000-0000-0000-000000000000 not found"
    );
    assert_eq!(
        not_found_error(u128::MAX).message,
        "Tunnel with id ffffffff-ffff-ffff-ffff-ffffffffffff not found"
    );
    assert_eq!(actor_dead_error(), actor_dead());
}

#[test]
fn a_new_manager_has_no_tunnels() {
    let m = TunnelManager::new();
    assert!(!m.contains(KEY));
    assert_eq!(m.get_tunnel_metric(KEY), None);
    assert_eq!(m.metric(KEY), TunnelMetric::default());
    assert_eq!(m.get_all_tunnel_health_state(), vec![]);
}

#[test]
fn add_registers_a_stopped_tunnel() {
    let mut m = TunnelManager::new();
    assert!(m.add_tunnel(KEY, &config(ID)));
    assert!(m.contains(KEY));
    assert_eq!(m.get_tunnel_metric(KEY), Some(TunnelMetric::default()));
}

#[test]
fn add_is_idempotent_per_identifier() {
    let mut m = TunnelManager::new();
    assert!(m.add_tunnel(KEY, &config(ID)));
    run(&mut m, KEY);
    let other = TunnelConfig { ssh_host: "elsewhere".to_string(), ..config(ID) };
    assert!(!m.add_tunnel(KEY, &other));
    assert_eq!(m.metric(KEY).tunnel_state, TunnelState::Running);
    assert_eq!(m.get_all_tunnel_health_state().len(), 1);
}

#[test]
fn commands_to_an_unknown_tunnel_are_not_found() {
    let mut m = TunnelManager::new();
    assert_eq!(m.start_tunnel(KEY), Err(not_found(ID)));
    assert_eq!(m.stop_tunnel(KEY), Err(not_found(ID)));
    assert_eq!(m.remove_tunnel(KEY), Err(not_found(ID)));
    assert_eq!(m.deliver(KEY, ActorEvent::TasksJoined), Err(not_found(ID)));
    assert!(!m.contains(KEY));
}

#[test]
fn start_hands_back_the_actors_answer() {
    let mut m = TunnelManager::new();
    m.add_tunnel(KEY, &config(ID));
    let step = m.start_tunnel(KEY).unwrap();
    assert!(matches!(step.action, ActorAction::OpenSession(_)));
    assert_eq!(step.published.len(), 1);
    assert_eq!(step.published[0].tunnel_state, TunnelState::Starting);
    assert_eq!(m.metric(KEY).tunnel_state, TunnelState::Starting);
}

#[test]
fn stop_of_a_running_tunnel() {
    let mut m = TunnelManager::new();
    m.add_tunnel(KEY, &config(ID));
    run(&mut m, KEY);
    let step = m.stop_tunnel(KEY).unwrap();
    assert_eq!(step.action, ActorAction::CancelScope);
    let step = m.deliver(KEY, ActorEvent::TasksJoined).unwrap();
    assert_eq!(step.action, ActorAction::DropSession);
    assert_eq!(m.metric(KEY), TunnelMetric::default());
    assert!(m.contains(KEY));
}

#[test]
fn remove_of_a_stopped_tunnel_leaves_no_handle() {
    let mut m = TunnelManager::new();
    m.add_tunnel(KEY, &config(ID));
    assert_eq!(m.remove_tunnel(KEY), Ok(Step { action: ActorAction::Exit, published: vec![] }));
    assert!(!m.contains(KEY));
    assert_eq!(m.metric(KEY), TunnelMetric::default());
}

#[test]
fn remove_of_a_running_tunnel_leaves_no_handle_once_joined() {
    let mut m = TunnelManager::new();
    m.add_tunnel(KEY, &config(ID));
    m.add_tunnel(2, &config(OTHER));
    run(&mut m, KEY);
    let step = m.remove_tunnel(KEY).unwrap();
    assert_eq!(step.action, ActorAction::CancelScope);
    assert!(m.contains(KEY));
    assert_eq!(m.metric(KEY).tunnel_state, TunnelState::Stopping);
    let step = m.deliver(KEY, ActorEvent::TasksJoined).unwrap();
    assert_eq!(step.action, ActorAction::Exit);
    assert!(!m.contains(KEY));
    assert!(m.contains(2));
}

#[test]
fn remove_is_idempotent() {
    let mut m = TunnelManager::new();
    m.add_tunnel(KEY, &config(ID));
    m.add_tunnel(2, &config(OTHER));
    m.remove_tunnel(KEY).unwrap();
    let after_first = m.get_all_tunnel_health_state();
    assert_eq!(m.remove_tunnel(KEY), Err(not_found(ID)));
    assert_eq!(m.get_all_tunnel_health_state(), after_first);
    assert_eq!(after_first, vec![(2, TunnelMetric::default())]);
}

#[test]
fn commands_to_a_closing_tunnel_find_the_actor_dead() {
    let mut m = TunnelManager::new();
    m.add_tunnel(KEY, &config(ID));
    run(&mut m, KEY);
    m.remove_tunnel(KEY).unwrap();
    assert_eq!(m.start_tunnel(KEY), Err(actor_dead()));
    assert_eq!(m.stop_tunnel(KEY), Err(actor_dead()));
    assert_eq!(m.remove_tunnel(KEY), Err(actor_dead()));
    assert_eq!(m.metric(KEY).tunnel_state, TunnelState::Stopping);
}

#[test]
fn a_removed_tunnel_can_be_added_again() {
    let mut m = TunnelManager::new();
    m.add_tunnel(KEY, &config(ID));
    run(&mut m, KEY);
    m.remove_tunnel(KEY).unwrap();
    assert!(!m.add_tunnel(KEY, &config(ID)));
    m.deliver(KEY, ActorEvent::TasksJoined).unwrap();
    assert!(m.add_tunnel(KEY, &config(ID)));
    assert_eq!(m.metric(KEY), TunnelMetric::default());
}

#[test]
fn all_metrics_list_every_tunnel_once() {
    let mut m = TunnelManager::new();
    for id in 1..=20u128 {
        m.add_tunnel(id, &config(OTHER));
    }
    run(&mut m, 7);
    m.deliver(
        7,
        ActorEvent::Session(SSHEvent {
            ssh_status: SSHStatus::Healthy { latency_ms: 3 },
            traffic: Traffic { send_bytes: 16, recv_bytes: 16 },
        }),
    )
    .unwrap();
    let mut all = m.get_all_tunnel_health_state();
    all.sort_by_key(|(id, _)| *id);
    assert_eq!(all.len(), 20);
    for (i, (id, metric)) in all.iter().enumerate() {
        assert_eq!(*id, i as u128 + 1);
        assert_eq!(*metric, m.metric(*id));
    }
    assert_eq!(all[6].1.traffic, Traffic { send_bytes: 16, recv_bytes: 16 });
}

#[test]
fn server_manager_registers_and_starts() {
    let mut s = ServerManager::new();
    let step = s.start_tunnel(&config(ID)).unwrap();
    assert!(matches!(step.action, ActorAction::OpenSession(_)));
    assert_eq!(s.get_tunnel_metric(ID).tunnel_state, TunnelState::Starting);
    assert_eq!(s.get_all_tunnel_health_state().len(), 1);
    assert_eq!(s.get_all_tunnel_health_state()[0].0, KEY);
}

#[test]
fn server_manager_rejects_a_definition_that_fails_the_check() {
    let mut s = ServerManager::new();
    let e = s.start_tunnel(&TunnelConfig { local_port: Some(0), ..config(ID) }).unwrap_err();
    assert_eq!(e.kind, ErrorKind::Config);
    assert_eq!(e.message, "Local port must be between 1 and 65535");
    let e = s.start_tunnel(&config("t1")).unwrap_err();
    assert_eq!(e.message, "Invalid tunnel ID: t1");
    assert_eq!(s.get_all_tunnel_health_state(), vec![]);
}

#[test]
fn server_manager_start_of_a_running_tunnel_is_a_no_op() {
    let mut s = ServerManager::new();
    s.start_tunnel(&config(ID)).unwrap();
    s.deliver(ID, ActorEvent::SessionOpened).unwrap();
    s.deliver(ID, ActorEvent::Forwarding).unwrap();
    assert_eq!(s.start_tunnel(&config(ID)), Ok(Step { action: ActorAction::Wait, published: vec![] }));
    assert_eq!(s.get_tunnel_metric(ID).tunnel_state, TunnelState::Running);
}

#[test]
fn server_manager_rejects_text_that_is_no_identifier() {
    let mut s = ServerManager::new();
    let invalid = TunnelError { kind: ErrorKind::Config, message: "Invalid tunnel ID: nope".to_string() };
    assert_eq!(s.stop_tunnel("nope"), Err(invalid));
    assert_eq!(s.remove_tunnel("").unwrap_err().message, "Invalid tunnel ID: ");
    assert_eq!(s.deliver("x", ActorEvent::TasksJoined).unwrap_err().message, "Invalid tunnel ID: x");
    assert_eq!(s.get_tunnel_metric("nope"), TunnelMetric::default());
}

#[test]
fn server_manager_names_tunnels_in_any_notation() {
    let mut s = ServerManager::new();
    s.start_tunnel(&config(ID)).unwrap();
    assert_eq!(
        s.get_tunnel_metric("550E8400E29B41D4A716446655440000").tunnel_state,
        TunnelState::Starting
    );
    assert_eq!(s.get_tunnel_metric(OTHER), TunnelMetric::default());
    assert_eq!(s.stop_tunnel(OTHER).unwrap_err().kind, ErrorKind::NotFound);
}

#[test]
fn server_manager_stop_and_remove() {
    let mut s = ServerManager::new();
    s.start_tunnel(&config(ID)).unwrap();
    s.deliver(ID, ActorEvent::SessionOpened).unwrap();
    s.deliver(ID, ActorEvent::Forwarding).unwrap();
    assert_eq!(s.stop_tunnel(ID).unwrap().action, ActorAction::CancelScope);
    assert_eq!(s.deliver(ID, ActorEvent::TasksJoined).unwrap().action, ActorAction::DropSession);
    assert_eq!(s.remove_tunnel(ID).unwrap().action, ActorAction::Exit);
    assert_eq!(s.remove_tunnel(ID).unwrap_err().kind, ErrorKind::NotFound);
    assert_eq!(s.get_all_tunnel_health_state(), vec![]);
}

#[test]
fn is_running_only_for_a_registered_running_tunnel() {
    let mut s = ServerManager::new();
    assert!(!s.is_running(ID));
    s.start_tunnel(&config(ID)).unwrap();
    assert!(!s.is_running(ID));
    s.deliver(ID, ActorEvent::SessionOpened).unwrap();
    s.deliver(ID, ActorEvent::Forwarding).unwrap();
    assert!(s.is_running(ID));
    assert!(!s.is_running(OTHER));
    assert!(!s.is_running("nope"));
    s.stop_tunnel(ID).unwrap();
    assert!(!s.is_running(ID));
}

#[test]
fn health_state_of_a_tunnel() {
    let mut m = TunnelManager::new();
    assert_eq!(m.get_tunnel_health_state(KEY), None);
    m.add_tunnel(KEY, &config(ID));
    assert_eq!(m.get_tunnel_health_state(KEY), Some(SSHStatus::Disconnected));
    run(&mut m, KEY);
    m.deliver(
        KEY,
        ActorEvent::Session(SSHEvent {
            ssh_status: SSHStatus::Healthy { latency_ms: 8 },
            traffic: Traffic { send_bytes: 0, recv_bytes: 0 },
        }),
    )
    .unwrap();
    assert_eq!(m.get_tunnel_health_state(KEY), Some(SSHStatus::Healthy { latency_ms: 8 }));
}

#[test]
fn tray_status_counts_every_tunnel_once() {
    let mut s = ServerManager::new();
    let ids = [
        "00000000-0000-0000-0000-000000000001",
        "00000000-0000-0000-0000-000000000002",
        "00000000-0000-0000-0000-000000000003",
        "00000000-0000-0000-0000-000000000004",
    ];
    for id in ids {
        s.start_tunnel(&config(id)).unwrap();
    }
    s.deliver(ids[0], ActorEvent::SessionOpened).unwrap();
    s.deliver(ids[0], ActorEvent::Forwarding).unwrap();
    s.deliver(ids[1], ActorEvent::SessionFailed(TunnelError::new(ErrorKind::Auth, "no"))).unwrap();
    s.deliver(ids[2], ActorEvent::SessionOpened).unwrap();
    assert_eq!(
        s.tray_status(),
        TrayStatusPayload { active_count: 1, unavailable_count: 2, error_count: 1 }
    );
    s.deliver(ids[0], ActorEvent::Command(TunnelCommand::Remove)).unwrap();
    assert_eq!(
        s.tray_status(),
        TrayStatusPayload { active_count: 0, unavailable_count: 3, error_count: 1 }
    );
}

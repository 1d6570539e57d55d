use ciconia::actor::{ActorAction, ActorEvent, Phase, Step, TunnelActor, CONTAINER_LOOKUP_TIMEOUT_SECS};
use ciconia::error::{ErrorKind, TunnelError};
use ciconia::metric::{SSHEvent, SSHStatus, Traffic, TunnelCommand, TunnelMetric, TunnelState};
use ciconia::model::{SshConnectConfig, SshForwardConfig, TunnelAuth, TunnelConfig};
use ciconia::ssh::{auth_verdict, bind_failure, monitor_probe, PingOutcome};

fn direct() -> TunnelConfig {
    TunnelConfig {
        id: "550e8400-e29b-41d4-a716-446655440000".to_string(),
        name: "t1".to_string(),
        mode: "standard".to_string(),
        ssh_host: "127.0.0.1".to_string(),
        ssh_port: 2222,
        ssh_username: "user".to_string(),
        auth_type: "key".to_string(),
        ssh_password: None,
        ssh_key_path: Some("/tmp/id".to_string()),
        local_port: Some(15432),
        target_host: Some("10.0.0.5".to_string()),
        target_port: Some(5432),
        container_name: None,
        container_port: None,
    }
}

fn container() -> TunnelConfig {
    TunnelConfig {
        mode: "docker".to_string(),
        local_port: Some(18080),
        target_host: None,
        target_port: None,
        container_name: Some("web".to_string()),
        container_port: Some(80),
        ..direct()
    }
}

fn connect() -> SshConnectConfig {
    SshConnectConfig {
        ssh_host: "127.0.0.1".to_string(),
        ssh_port: 2222,
        ssh_user: "user".to_string(),
        auth: TunnelAuth::Key("/tmp/id".to_string()),
    }
}

fn direct_forward() -> SshForwardConfig {
    SshForwardConfig {
        local_host: "127.0.0.1".to_string(),
        local_port: 15432,
        remote_host: "10.0.0.5".to_string(),
        remote_port: 5432,
    }
}

fn snapshot(state: TunnelState, status: SSHStatus, send: u128, recv: u128) -> TunnelMetric {
    TunnelMetric {
        tunnel_state: state,
        ssh_status: status,
        traffic: Traffic { send_bytes: send, recv_bytes: recv },
    }
}

fn plain(state: TunnelState) -> TunnelMetric {
    snapshot(state, SSHStatus::Disconnected, 0, 0)
}

fn error(message: &str) -> TunnelState {
    TunnelState::Error(message.to_string())
}

fn cmd(c: TunnelCommand) -> ActorEvent {
    ActorEvent::Command(c)
}

fn report(status: SSHStatus, send: u128, recv: u128) -> ActorEvent {
    ActorEvent::Session(SSHEvent {
        ssh_status: status,
        traffic: Traffic { send_bytes: send, recv_bytes: recv },
    })
}

fn running(config: TunnelConfig) -> TunnelActor {
    let mut a = TunnelActor::new(config);
    a.handle(cmd(TunnelCommand::Start));
    let step = a.handle(ActorEvent::SessionOpened);
    if let ActorAction::ResolveContainer { .. } = step.action {
        a.handle(ActorEvent::ContainerResolved(Ok(Some("172.17.0.3".to_string()))));
    }
    a.handle(ActorEvent::Forwarding);
    assert_eq!(a.metric().tunnel_state, TunnelState::Running);
    a
}

fn may_follow(from: &TunnelState, to: &TunnelState) -> bool {
    from == to
        || matches!(
            (from, to),
            (TunnelState::Stopped, TunnelState::Starting)
                | (TunnelState::Error(_), TunnelState::Starting)
                | (TunnelState::Starting, TunnelState::Running)
                | (TunnelState::Starting, TunnelState::Error(_))
                | (TunnelState::Running, TunnelState::Stopping)
                | (TunnelState::Running, TunnelState::Error(_))
                | (TunnelState::Error(_), TunnelState::Stopping)
                | (TunnelState::Stopping, TunnelState::Stopped)
        )
}

#[test]
fn a_new_actor_is_stopped() {
    let a = TunnelActor::new(direct());
    assert_eq!(a.metric(), TunnelMetric::default());
    assert_eq!(a.config(), &direct());
    assert_eq!(a.forward(), None);
    assert!(!a.is_busy());
    assert!(!a.has_exited());
    assert!(!a.is_closing());
}

#[test]
fn direct_happy_path() {
    let mut a = TunnelActor::new(direct());
    assert_eq!(
        a.handle(cmd(TunnelCommand::Start)),
        Step {
            action: ActorAction::OpenSession(connect()),
            published: vec![plain(TunnelState::Starting)],
        }
    );
    assert!(a.is_busy());
    assert_eq!(
        a.handle(ActorEvent::SessionOpened),
        Step { action: ActorAction::Forward(direct_forward()), published: vec![] }
    );
    assert_eq!(a.forward(), Some(direct_forward()));
    assert_eq!(
        a.handle(ActorEvent::Forwarding),
        Step { action: ActorAction::Wait, published: vec![plain(TunnelState::Running)] }
    );
    assert!(!a.is_busy());
    assert_eq!(
        a.handle(report(SSHStatus::Healthy { latency_ms: 12 }, 0, 0)),
        Step {
            action: ActorAction::Wait,
            published: vec![snapshot(TunnelState::Running, SSHStatus::Healthy { latency_ms: 12 }, 0, 0)],
        }
    );
    assert_eq!(
        a.handle(report(SSHStatus::Healthy { latency_ms: 12 }, 16, 16)),
        Step {
            action: ActorAction::Wait,
            published: vec![snapshot(TunnelState::Running, SSHStatus::Healthy { latency_ms: 12 }, 16, 16)],
        }
    );
    assert_eq!(
        a.handle(cmd(TunnelCommand::Stop)),
        Step { action: ActorAction::CancelScope, published: vec![plain(TunnelState::Stopping)] }
    );
    assert_eq!(
        a.handle(ActorEvent::TasksJoined),
        Step { action: ActorAction::DropSession, published: vec![plain(TunnelState::Stopped)] }
    );
    assert_eq!(a.metric(), TunnelMetric::default());
    assert_eq!(a.forward(), None);
}

#[test]
fn auth_failure_ends_in_error_without_forwarding() {
    let mut a = TunnelActor::new(TunnelConfig {
        auth_type: "password".to_string(),
        ssh_password: Some("wrong".to_string()),
        ..direct()
    });
    let step = a.handle(cmd(TunnelCommand::Start));
    assert_eq!(
        step.action,
        ActorAction::OpenSession(SshConnectConfig {
            auth: TunnelAuth::Password("wrong".to_string()),
            ..connect()
        })
    );
    let failure = auth_verdict(false).unwrap_err();
    let step = a.handle(ActorEvent::SessionFailed(failure));
    assert_eq!(
        step,
        Step {
            action: ActorAction::DropSession,
            published: vec![plain(error("Failed to authenticate"))],
        }
    );
    match a.metric().tunnel_state {
        TunnelState::Error(m) => assert!(m.contains("authenticate")),
        other => panic!("unexpected state {:?}", other),
    }
    assert_eq!(a.forward(), None);
}

#[test]
fn container_resolution() {
    let mut a = TunnelActor::new(container());
    a.handle(cmd(TunnelCommand::Start));
    assert_eq!(CONTAINER_LOOKUP_TIMEOUT_SECS, 10);
    assert_eq!(
        a.handle(ActorEvent::SessionOpened),
        Step {
            action: ActorAction::ResolveContainer {
                container_name: "web".to_string(),
                timeout_secs: 10,
            },
            published: vec![],
        }
    );
    let target = SshForwardConfig {
        local_host: "127.0.0.1".to_string(),
        local_port: 18080,
        remote_host: "172.17.0.3".to_string(),
        remote_port: 80,
    };
    assert_eq!(
        a.handle(ActorEvent::ContainerResolved(Ok(Some("172.17.0.3".to_string())))),
        Step { action: ActorAction::Forward(target.clone()), published: vec![] }
    );
    a.handle(ActorEvent::Forwarding);
    assert_eq!(a.metric().tunnel_state, TunnelState::Running);
    assert_eq!(a.forward(), Some(target));
}

#[test]
fn container_not_found() {
    let mut a = TunnelActor::new(container());
    a.handle(cmd(TunnelCommand::Start));
    a.handle(ActorEvent::SessionOpened);
    assert_eq!(
        a.handle(ActorEvent::ContainerResolved(Ok(None))),
        Step {
            action: ActorAction::DropSession,
            published: vec![plain(error("Container IP not found"))],
        }
    );
    assert_eq!(a.forward(), None);
    assert_eq!(a.handle(ActorEvent::Forwarding), Step { action: ActorAction::Wait, published: vec![] });
    assert_eq!(a.metric().tunnel_state, error("Container IP not found"));
}

#[test]
fn container_lookup_error_fails_the_start() {
    let mut a = TunnelActor::new(container());
    a.handle(cmd(TunnelCommand::Start));
    a.handle(ActorEvent::SessionOpened);
    let failure = TunnelError {
        kind: ErrorKind::Exec,
        message: "Command failed (exit code 1): no such container".to_string(),
    };
    let step = a.handle(ActorEvent::ContainerResolved(Err(failure)));
    assert_eq!(step.action, ActorAction::DropSession);
    assert_eq!(a.metric().tunnel_state, error("Command failed (exit code 1): no such container"));
}

#[test]
fn session_drop_while_running() {
    let mut a = running(direct());
    a.handle(report(SSHStatus::Healthy { latency_ms: 5 }, 100, 200));
    let probe = monitor_probe(PingOutcome::TimedOut, true);
    assert!(probe.cancel);
    let mut seen = vec![];
    for status in probe.publish {
        let step = a.handle(report(status, 100, 200));
        seen.push(step.published[0].clone());
    }
    assert_eq!(
        seen,
        vec![
            snapshot(TunnelState::Running, SSHStatus::Unstable { reason: "Timeout/Err".to_string() }, 100, 200),
            snapshot(TunnelState::Running, SSHStatus::Disconnected, 100, 200),
        ]
    );
    assert_eq!(
        a.handle(ActorEvent::SubordinateExited),
        Step {
            action: ActorAction::DropSession,
            published: vec![snapshot(error("Connection Dropped"), SSHStatus::Disconnected, 100, 200)],
        }
    );
    assert_eq!(a.forward(), None);
}

#[test]
fn a_port_in_use_fails_the_start_with_a_bind_error() {
    let mut a = TunnelActor::new(direct());
    a.handle(cmd(TunnelCommand::Start));
    let step = a.handle(ActorEvent::SessionOpened);
    let forward = match step.action {
        ActorAction::Forward(f) => f,
        other => panic!("unexpected action {:?}", other),
    };
    let failure = bind_failure(&forward);
    assert_eq!(failure.kind, ErrorKind::Bind);
    assert_eq!(
        a.handle(ActorEvent::ForwardFailed(failure)),
        Step {
            action: ActorAction::DropSession,
            published: vec![plain(error("Failed to bind SSH server: 127.0.0.1:15432"))],
        }
    );
}

#[test]
fn a_bad_definition_fails_at_start_after_showing_starting() {
    let mut a = TunnelActor::new(TunnelConfig { mode: "socks".to_string(), ..direct() });
    assert_eq!(
        a.handle(cmd(TunnelCommand::Start)),
        Step {
            action: ActorAction::Wait,
            published: vec![plain(TunnelState::Starting), plain(error("Invalid mode: socks"))],
        }
    );
    assert!(!a.is_busy());
}

#[test]
fn start_after_an_error_starts_again() {
    let mut a = TunnelActor::new(direct());
    a.handle(cmd(TunnelCommand::Start));
    a.handle(ActorEvent::SessionFailed(TunnelError::new(ErrorKind::Connect, "refused")));
    assert_eq!(a.metric().tunnel_state, error("refused"));
    let step = a.handle(cmd(TunnelCommand::Start));
    assert_eq!(step.action, ActorAction::OpenSession(connect()));
    assert_eq!(step.published, vec![plain(TunnelState::Starting)]);
}

#[test]
fn start_while_running_is_a_no_op() {
    let mut a = running(direct());
    a.handle(report(SSHStatus::Healthy { latency_ms: 1 }, 5, 6));
    let before = a.metric();
    assert_eq!(a.handle(cmd(TunnelCommand::Start)), Step { action: ActorAction::Wait, published: vec![] });
    assert_eq!(a.metric(), before);
}

#[test]
fn stop_while_stopped_is_a_no_op() {
    let mut a = TunnelActor::new(direct());
    assert_eq!(a.handle(cmd(TunnelCommand::Stop)), Step { action: ActorAction::Wait, published: vec![] });
    assert_eq!(a.metric(), TunnelMetric::default());
}

#[test]
fn stop_of_a_failed_tunnel_passes_through_stopping() {
    let mut a = running(direct());
    a.handle(report(SSHStatus::Healthy { latency_ms: 1 }, 5, 6));
    a.handle(ActorEvent::SubordinateExited);
    assert_eq!(
        a.handle(cmd(TunnelCommand::Stop)),
        Step {
            action: ActorAction::Wait,
            published: vec![
                snapshot(TunnelState::Stopping, SSHStatus::Disconnected, 5, 6),
                snapshot(TunnelState::Stopped, SSHStatus::Disconnected, 5, 6),
            ],
        }
    );
}

#[test]
fn commands_during_a_handler_are_deferred() {
    let mut a = TunnelActor::new(container());
    a.handle(cmd(TunnelCommand::Start));
    for c in [TunnelCommand::Start, TunnelCommand::Stop, TunnelCommand::Remove] {
        assert_eq!(a.handle(cmd(c)), Step { action: ActorAction::Defer(c), published: vec![] });
    }
    a.handle(ActorEvent::SessionOpened);
    assert_eq!(
        a.handle(cmd(TunnelCommand::Stop)),
        Step { action: ActorAction::Defer(TunnelCommand::Stop), published: vec![] }
    );
    a.handle(ActorEvent::ContainerResolved(Ok(Some("10.0.0.1".to_string()))));
    assert_eq!(
        a.handle(cmd(TunnelCommand::Remove)),
        Step { action: ActorAction::Defer(TunnelCommand::Remove), published: vec![] }
    );
    a.handle(ActorEvent::Forwarding);
    a.handle(cmd(TunnelCommand::Stop));
    assert_eq!(
        a.handle(cmd(TunnelCommand::Start)),
        Step { action: ActorAction::Defer(TunnelCommand::Start), published: vec![] }
    );
}

#[test]
fn events_that_do_not_fit_the_phase_are_ignored() {
    let mut a = TunnelActor::new(direct());
    let idle = Step { action: ActorAction::Wait, published: vec![] };
    assert_eq!(a.handle(ActorEvent::SessionOpened), idle);
    assert_eq!(a.handle(ActorEvent::Forwarding), idle);
    assert_eq!(a.handle(ActorEvent::TasksJoined), idle);
    assert_eq!(a.handle(ActorEvent::SubordinateExited), idle);
    assert_eq!(a.handle(report(SSHStatus::Healthy { latency_ms: 1 }, 9, 9)), idle);
    assert_eq!(a.handle(ActorEvent::ContainerResolved(Ok(None))), idle);
    assert_eq!(a.handle(ActorEvent::SessionFailed(TunnelError::new(ErrorKind::Auth, "x"))), idle);
    assert_eq!(a.handle(ActorEvent::ForwardFailed(TunnelError::new(ErrorKind::Bind, "x"))), idle);
    assert_eq!(a.metric(), TunnelMetric::default());
}

#[test]
fn traffic_counts_the_growth_of_the_span() {
    let mut a = running(direct());
    a.handle(report(SSHStatus::Disconnected, 10, 0));
    a.handle(report(SSHStatus::Disconnected, 10, 0));
    a.handle(report(SSHStatus::Disconnected, 25, 7));
    assert_eq!(a.metric().traffic, Traffic { send_bytes: 25, recv_bytes: 7 });
    a.handle(report(SSHStatus::Disconnected, 25, 1031));
    assert_eq!(a.metric().traffic, Traffic { send_bytes: 25, recv_bytes: 1031 });
}

#[test]
fn traffic_never_falls_while_running() {
    let mut a = running(direct());
    let mut last = a.metric().traffic;
    for (send, recv) in [(5u128, 5u128), (3, 9), (3, 2), (100, 0), (0, 0), (u128::MAX, 1), (7, 7)] {
        a.handle(report(SSHStatus::Healthy { latency_ms: 1 }, send, recv));
        let now = a.metric().traffic;
        assert!(now.send_bytes >= last.send_bytes);
        assert!(now.recv_bytes >= last.recv_bytes);
        last = now;
    }
}

#[test]
fn traffic_survives_a_drop_and_is_reset_by_stop() {
    let mut a = running(direct());
    a.handle(report(SSHStatus::Healthy { latency_ms: 1 }, 40, 50));
    a.handle(ActorEvent::SubordinateExited);
    assert_eq!(a.metric().traffic, Traffic { send_bytes: 40, recv_bytes: 50 });
    a.handle(cmd(TunnelCommand::Start));
    a.handle(ActorEvent::SessionOpened);
    a.handle(ActorEvent::Forwarding);
    a.handle(report(SSHStatus::Healthy { latency_ms: 1 }, 2, 3));
    assert_eq!(a.metric().traffic, Traffic { send_bytes: 42, recv_bytes: 53 });
    a.handle(cmd(TunnelCommand::Stop));
    assert_eq!(a.metric().traffic, Traffic { send_bytes: 0, recv_bytes: 0 });
}

#[test]
fn start_stop_start_gives_a_fresh_running() {
    for config in [direct(), container()] {
        let mut a = running(config);
        a.handle(report(SSHStatus::Healthy { latency_ms: 9 }, 1000, 2000));
        a.handle(cmd(TunnelCommand::Stop));
        a.handle(ActorEvent::TasksJoined);
        assert_eq!(a.metric(), TunnelMetric::default());
        a.handle(cmd(TunnelCommand::Start));
        let step = a.handle(ActorEvent::SessionOpened);
        if let ActorAction::ResolveContainer { .. } = step.action {
            a.handle(ActorEvent::ContainerResolved(Ok(Some("172.17.0.9".to_string()))));
        }
        a.handle(ActorEvent::Forwarding);
        assert_eq!(a.metric(), plain(TunnelState::Running));
        a.handle(report(SSHStatus::Healthy { latency_ms: 9 }, 16, 16));
        assert_eq!(a.metric().traffic, Traffic { send_bytes: 16, recv_bytes: 16 });
    }
}

#[test]
fn remove_of_a_stopped_tunnel_exits_at_once() {
    let mut a = TunnelActor::new(direct());
    assert_eq!(a.handle(cmd(TunnelCommand::Remove)), Step { action: ActorAction::Exit, published: vec![] });
    assert!(a.has_exited());
    assert!(a.is_closing());
    assert_eq!(a.handle(cmd(TunnelCommand::Start)), Step { action: ActorAction::Wait, published: vec![] });
    assert_eq!(a.handle(cmd(TunnelCommand::Remove)), Step { action: ActorAction::Wait, published: vec![] });
}

#[test]
fn remove_of_a_running_tunnel_stops_then_exits() {
    let mut a = running(direct());
    assert_eq!(
        a.handle(cmd(TunnelCommand::Remove)),
        Step { action: ActorAction::CancelScope, published: vec![plain(TunnelState::Stopping)] }
    );
    assert!(a.is_closing());
    assert!(!a.has_exited());
    assert_eq!(
        a.handle(ActorEvent::TasksJoined),
        Step { action: ActorAction::Exit, published: vec![plain(TunnelState::Stopped)] }
    );
    assert!(a.has_exited());
}

#[test]
fn remove_of_a_failed_tunnel_exits_at_once() {
    let mut a = TunnelActor::new(TunnelConfig { auth_type: "?".to_string(), ..direct() });
    a.handle(cmd(TunnelCommand::Start));
    assert_eq!(
        a.handle(cmd(TunnelCommand::Remove)),
        Step {
            action: ActorAction::Exit,
            published: vec![plain(TunnelState::Stopping), plain(TunnelState::Stopped)],
        }
    );
    assert!(a.has_exited());
}

fn sample_event(n: u64) -> ActorEvent {
    match n % 11 {
        0 => cmd(TunnelCommand::Start),
        1 => cmd(TunnelCommand::Stop),
        2 => ActorEvent::SessionOpened,
        3 => ActorEvent::SessionFailed(TunnelError::new(ErrorKind::Auth, "Failed to authenticate")),
        4 => ActorEvent::ContainerResolved(Ok(Some("172.17.0.2".to_string()))),
        5 => ActorEvent::ContainerResolved(Ok(None)),
        6 => ActorEvent::Forwarding,
        7 => ActorEvent::ForwardFailed(TunnelError::new(ErrorKind::Bind, "in use")),
        8 => report(SSHStatus::Healthy { latency_ms: n }, n as u128, 2 * n as u128),
        9 => ActorEvent::SubordinateExited,
        _ => ActorEvent::TasksJoined,
    }
}

#[test]
fn every_published_state_follows_the_table() {
    for config in [direct(), container(), TunnelConfig { mode: "x".to_string(), ..direct() }] {
        let mut seed: u64 = 0x9E37_79B9_7F4A_7C15;
        let mut a = TunnelActor::new(config);
        let mut shown = a.metric().tunnel_state;
        for round in 0..5000u64 {
            seed = seed.wrapping_mul(6364136223846793005).wrapping_add(1442695040888963407);
            let e = if round % 977 == 976 { cmd(TunnelCommand::Remove) } else { sample_event(seed >> 33) };
            let step = a.handle(e);
            for m in step.published {
                assert!(may_follow(&shown, &m.tunnel_state), "{:?} -> {:?}", shown, m.tunnel_state);
                shown = m.tunnel_state;
            }
            assert_eq!(a.metric().tunnel_state, shown);
            if a.has_exited() {
                a = TunnelActor::new(direct());
                shown = a.metric().tunnel_state;
            }
        }
    }
}

#[test]
fn failures_keep_their_kind() {
    let mut a = TunnelActor::new(container());
    assert_eq!(a.failure(), None);
    a.handle(cmd(TunnelCommand::Start));
    a.handle(ActorEvent::SessionOpened);
    a.handle(ActorEvent::ContainerResolved(Ok(None)));
    assert_eq!(a.failure(), Some(TunnelError::new(ErrorKind::Exec, "Container IP not found")));
    a.handle(cmd(TunnelCommand::Start));
    assert_eq!(a.failure(), None);
    a.handle(ActorEvent::SessionFailed(TunnelError::new(ErrorKind::Resolution, "Hostname resolved but no IP found")));
    assert_eq!(a.failure().unwrap().kind, ErrorKind::Resolution);
    let mut a = running(direct());
    a.handle(ActorEvent::SubordinateExited);
    assert_eq!(a.failure(), Some(TunnelError::new(ErrorKind::SessionDropped, "Connection Dropped")));
    let mut a = TunnelActor::new(TunnelConfig { ssh_key_path: None, ..direct() });
    a.handle(cmd(TunnelCommand::Start));
    assert_eq!(
        a.failure(),
        Some(TunnelError::new(ErrorKind::Config, "Key path not provided for key authentication"))
    );
}

#[test]
fn phases_compare() {
    assert_eq!(Phase::Stopping { exit: true }, Phase::Stopping { exit: true });
    assert_ne!(Phase::Stopping { exit: true }, Phase::Stopping { exit: false });
    assert_ne!(
        Phase::Failed(TunnelError::new(ErrorKind::Auth, "a")),
        Phase::Failed(TunnelError::new(ErrorKind::Bind, "a"))
    );
}

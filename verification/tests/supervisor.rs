use devpod_desktop::supervisor::{
    get_pipe_addr, get_socket_addr, Daemon, HealthAction, MAX_RETRY_COUNT,
};
use devpod_desktop::{DaemonState, DaemonStatus};

fn fresh_daemon() -> Daemon {
    Daemon::new(
        "/home/user/.devpod".to_string(),
        Some("default".to_string()),
        Some("acme".to_string()),
    )
    .unwrap()
}

#[test]
fn socket_addr_is_per_provider() {
    let addr = get_socket_addr(
        "/home/user/.devpod".to_string(),
        Some("work".to_string()),
        Some("acme".to_string()),
    )
    .unwrap();
    assert_eq!(
        addr,
        "/home/user/.devpod/contexts/work/providers/acme/daemon/devpod.sock".to_string()
    );
}

#[test]
fn socket_addr_context_defaults() {
    let addr = get_socket_addr("/h".to_string(), None, Some("acme".to_string())).unwrap();
    assert_eq!(addr, "/h/contexts/default/providers/acme/daemon/devpod.sock".to_string());
}

#[test]
fn socket_addr_requires_provider() {
    let r = get_socket_addr("/h".to_string(), None, None);
    assert!(r.is_err());
}

#[test]
fn pipe_addr_is_per_provider() {
    let addr = get_pipe_addr(&"acme".to_string());
    assert_eq!(addr, "\\\\.\\pipe\\devpod.acme".to_string());
}

#[test]
fn new_daemon_starts_pending() {
    let d = fresh_daemon();
    assert_eq!(d.status, DaemonStatus::default());
    assert_eq!(d.status.state, DaemonState::Pending);
    assert!(d.child.is_none());
    assert_eq!(d.retry_count, 0);
    assert!(!d.notified_user_daemon_failed);
    assert!(!d.notified_login_required);
}

// Over consecutive failures the count rises by one per tick, the failure
// notification fires exactly once when the count reaches the limit, and
// past the limit only every fifth tick retries.
#[test]
fn retry_policy_over_consecutive_failures() {
    let mut d = fresh_daemon();
    for tick in 1..=20u64 {
        let decision = d.should_retry();
        assert_eq!(d.retry_count, tick);
        assert_eq!(decision.notify_failed, tick == MAX_RETRY_COUNT);
        let expected_retry = tick < MAX_RETRY_COUNT || tick % 5 == 0;
        assert_eq!(decision.retry, expected_retry);
        if decision.retry {
            // the spawn fails: the daemon is unreachable and no child runs
            let act = d.on_health_result(None);
            assert!(matches!(act, HealthAction::Start));
            assert_eq!(d.status.state, DaemonState::Pending);
        }
    }
}

// While login is required nothing retries, whatever the count says.
#[test]
fn no_retry_while_login_required() {
    let mut d = fresh_daemon();
    d.status = DaemonStatus { state: DaemonState::Running, online: true, login_required: true };
    for expected_count in [0u64, 0, 0] {
        let decision = d.should_retry();
        assert!(!decision.retry);
        assert!(!decision.notify_failed);
        assert_eq!(d.retry_count, expected_count);
    }

    let mut d2 = fresh_daemon();
    d2.retry_count = 3;
    d2.status.login_required = true;
    let decision = d2.should_retry();
    assert!(!decision.retry);
    assert_eq!(d2.retry_count, 3);
}

#[test]
fn should_debug_past_threshold() {
    let mut d = fresh_daemon();
    assert!(!d.should_debug());
    d.retry_count = 6;
    assert!(!d.should_debug());
    d.retry_count = 7;
    assert!(d.should_debug());
}

#[test]
fn try_stop_clears_child_and_status() {
    let mut d = fresh_daemon();
    let notify = d.on_spawn_success(4711, DaemonStatus {
        state: DaemonState::Running,
        online: true,
        login_required: false,
    });
    assert!(!notify);
    assert_eq!(d.child, Some(4711));

    let killed = d.try_stop();
    assert_eq!(killed, Some(4711));
    assert!(d.child.is_none());
    assert_eq!(d.status, DaemonStatus::default());
}

#[test]
fn login_notification_fires_once() {
    let mut d = fresh_daemon();
    let st = DaemonStatus { state: DaemonState::Running, online: true, login_required: true };
    assert!(d.on_spawn_success(1, st));
    // the condition persists: no second message
    assert!(!d.on_spawn_success(2, st));
    // a running report re-arms the message
    let act = d.on_health_result(Some(DaemonStatus {
        state: DaemonState::Running,
        online: true,
        login_required: false,
    }));
    assert!(matches!(act, HealthAction::Wait));
    assert!(!d.notified_login_required);
    assert!(d.on_spawn_success(3, st));
}

#[test]
fn health_running_resets_retries() {
    let mut d = fresh_daemon();
    d.retry_count = 9;
    let act = d.on_health_result(Some(DaemonStatus {
        state: DaemonState::Running,
        online: true,
        login_required: false,
    }));
    assert!(matches!(act, HealthAction::Wait));
    assert_eq!(d.retry_count, 0);
    assert_eq!(d.status.state, DaemonState::Running);
    assert!(d.status.online);
}

#[test]
fn health_stopped_schedules_restart() {
    let mut d = fresh_daemon();
    let act = d.on_health_result(Some(DaemonStatus {
        state: DaemonState::Stopped,
        online: false,
        login_required: false,
    }));
    assert!(matches!(act, HealthAction::Start));
    assert_eq!(d.status.state, DaemonState::Pending);
}

// An unreachable daemon with a tracked child: the state goes to stopped
// and the child is cleared for the kill.
#[test]
fn health_error_with_child_kills_it() {
    let mut d = fresh_daemon();
    let _ = d.on_spawn_success(99, DaemonStatus::default());
    let act = d.on_health_result(None);
    assert!(matches!(act, HealthAction::Kill(99)));
    assert_eq!(d.status.state, DaemonState::Stopped);
    assert!(d.child.is_none());
}

#[test]
fn health_error_without_child_restarts() {
    let mut d = fresh_daemon();
    let act = d.on_health_result(None);
    assert!(matches!(act, HealthAction::Start));
    assert_eq!(d.status.state, DaemonState::Pending);
}

use std::time::Duration;
use websocket_builder::{
    CloseFrame, ConnectionConfig, ConnectionTimer, DisconnectReason, SocketAction, SocketEvent,
    TimeoutKind, WaitPlan,
};

const SEC: u128 = 1_000_000_000;

#[test]
fn test_connection_config_default() {
    let config = ConnectionConfig::default();
    assert_eq!(config.max_connections, None);
    assert_eq!(config.max_connection_duration, None);
    assert_eq!(config.idle_timeout, None);
}

#[test]
fn test_connection_config_with_limit() {
    let config = ConnectionConfig {
        max_connections: Some(100),
        max_connection_duration: None,
        idle_timeout: None,
    };
    assert_eq!(config.max_connections, Some(100));
}

#[test]
fn test_connection_config_with_timeouts() {
    let config = ConnectionConfig {
        max_connections: None,
        max_connection_duration: Some(Duration::from_secs(300)),
        idle_timeout: Some(Duration::from_secs(60)),
    };
    assert_eq!(
        config.max_connection_duration,
        Some(Duration::from_secs(300))
    );
    assert_eq!(config.idle_timeout, Some(Duration::from_secs(60)));
}

#[test]
fn test_connection_config_clone() {
    let config = ConnectionConfig {
        max_connections: Some(50),
        max_connection_duration: Some(Duration::from_secs(120)),
        idle_timeout: Some(Duration::from_secs(30)),
    };
    let cloned = config.clone();
    assert_eq!(cloned.max_connections, config.max_connections);
    assert_eq!(
        cloned.max_connection_duration,
        config.max_connection_duration
    );
    assert_eq!(cloned.idle_timeout, config.idle_timeout);
}

fn timeout_text(plan: WaitPlan) -> Option<String> {
    match plan {
        WaitPlan::Expired(DisconnectReason::Timeout(t)) => Some(t),
        _ => None,
    }
}

#[test]
fn timer_without_limits_waits_unbounded() {
    let timer = ConnectionTimer::new(None, None);
    assert!(matches!(timer.next_wait(0), WaitPlan::Unbounded));
    assert!(matches!(timer.next_wait(1_000_000 * SEC), WaitPlan::Unbounded));
}

#[test]
fn timer_max_duration_remaining_and_expiry() {
    let timer = ConnectionTimer::new(Some(300 * SEC), None);
    match timer.next_wait(100 * SEC) {
        WaitPlan::Until { remaining, kind } => {
            assert_eq!(remaining, 200 * SEC);
            assert_eq!(kind, TimeoutKind::MaxDuration);
        }
        other => panic!("unexpected plan {other:?}"),
    }
    assert_eq!(
        timeout_text(timer.next_wait(300 * SEC)).as_deref(),
        Some("Maximum connection duration exceeded")
    );
}

#[test]
fn timer_idle_shorter_wins_and_tie_goes_to_max_duration() {
    let timer = ConnectionTimer::new(Some(300 * SEC), Some(60 * SEC));
    match timer.next_wait(10 * SEC) {
        WaitPlan::Until { remaining, kind } => {
            assert_eq!(remaining, 50 * SEC);
            assert_eq!(kind, TimeoutKind::Idle);
        }
        other => panic!("unexpected plan {other:?}"),
    }
    // 250 s of max duration left, 50 s of idle: idle still shorter; at a tie
    // the maximum duration is reported.
    let tie = ConnectionTimer::new(Some(100 * SEC), Some(100 * SEC));
    match tie.next_wait(0) {
        WaitPlan::Until { remaining, kind } => {
            assert_eq!(remaining, 100 * SEC);
            assert_eq!(kind, TimeoutKind::MaxDuration);
        }
        other => panic!("unexpected plan {other:?}"),
    }
    assert_eq!(timeout_text(timer.next_wait(60 * SEC)).as_deref(), Some("Idle timeout"));
}

#[test]
fn timer_activity_restarts_idle() {
    let mut timer = ConnectionTimer::new(None, Some(60 * SEC));
    assert!(matches!(timer.on_event(SocketEvent::Ping, 50 * SEC), SocketAction::Continue));
    assert_eq!(timer.last_activity, 50 * SEC);
    match timer.next_wait(70 * SEC) {
        WaitPlan::Until { remaining, kind } => {
            assert_eq!(remaining, 40 * SEC);
            assert_eq!(kind, TimeoutKind::Idle);
        }
        other => panic!("unexpected plan {other:?}"),
    }
    // A close frame is no activity.
    let action = timer.on_event(SocketEvent::Close(None), 80 * SEC);
    assert!(matches!(action, SocketAction::Disconnect(DisconnectReason::Unknown)));
    assert_eq!(timer.last_activity, 50 * SEC);
}

#[test]
fn timer_events_map_to_actions() {
    let mut timer = ConnectionTimer::new(None, None);
    assert!(matches!(timer.on_event(SocketEvent::Text, 1), SocketAction::Deliver));
    assert!(matches!(timer.on_event(SocketEvent::Binary, 2), SocketAction::Continue));
    assert!(matches!(timer.on_event(SocketEvent::Pong, 3), SocketAction::Continue));
    match timer.on_event(
        SocketEvent::Close(Some(CloseFrame { code: 1001, reason: "bye".to_string() })),
        4,
    ) {
        SocketAction::Disconnect(DisconnectReason::Close(code, reason)) => {
            assert_eq!(code, 1001);
            assert_eq!(reason, "bye");
        }
        other => panic!("unexpected action {other:?}"),
    }
    match timer.on_event(SocketEvent::Error("Connection reset".to_string()), 5) {
        SocketAction::Disconnect(DisconnectReason::Error(e)) => assert_eq!(e, "Connection reset"),
        other => panic!("unexpected action {other:?}"),
    }
    assert!(matches!(
        timer.on_event(SocketEvent::Ended, 6),
        SocketAction::Disconnect(DisconnectReason::Unknown)
    ));
    match timer.on_event(SocketEvent::DeadlinePassed(TimeoutKind::Idle), 7) {
        SocketAction::Disconnect(DisconnectReason::Timeout(t)) => assert_eq!(t, "Idle timeout"),
        other => panic!("unexpected action {other:?}"),
    }
    match timer.on_event(SocketEvent::HandlerFailed("boom".to_string()), 8) {
        SocketAction::Disconnect(DisconnectReason::Error(e)) => assert_eq!(e, "boom"),
        other => panic!("unexpected action {other:?}"),
    }
    assert_eq!(timer.last_activity, 3);
}

#[test]
fn waiting_out_a_deadline_reaches_that_timeout() {
    let mut timer = ConnectionTimer::new(Some(300 * SEC), Some(60 * SEC));
    let _ = timer.on_event(SocketEvent::Text, 250 * SEC);
    for now in [250 * SEC, 260 * SEC, 299 * SEC] {
        match timer.next_wait(now) {
            WaitPlan::Until { remaining, kind } => {
                let text = timeout_text(timer.next_wait(now + remaining)).unwrap();
                match kind {
                    TimeoutKind::Idle => assert_eq!(text, "Idle timeout"),
                    TimeoutKind::MaxDuration => {
                        assert_eq!(text, "Maximum connection duration exceeded")
                    }
                }
            }
            other => panic!("unexpected plan {other:?}"),
        }
    }
}

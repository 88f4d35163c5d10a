use tt2::session::ConnState;
use tt2::session::LossAction;
use tt2::session::Session;

fn connected_session() -> Session {
    let mut s = Session::new();
    s.on_connect_succeeded();
    s.on_subscribe_succeeded();
    s
}

#[test]
fn fresh_session_is_disconnected() {
    let s = Session::new();
    assert_eq!(s.state, ConnState::Disconnected);
    assert!(!s.shutdown_requested);
    assert_eq!(s.attempts, 0);
    assert!(!s.subscribed);
}

#[test]
fn connect_then_subscribe_enables_receiving() {
    let mut s = Session::new();
    s.on_connect_succeeded();
    assert_eq!(s.state, ConnState::Connected);
    assert!(!s.can_receive());
    s.on_subscribe_succeeded();
    assert!(s.can_receive());
}

#[test]
fn stream_end_reconnects_after_failures_then_resumes() {
    // Stream ends mid-receive: the session enters Reconnecting, counts
    // attempts 1, 2, transitions to Connected when attempt 3 succeeds,
    // resubscribes, and may resume receiving.
    let mut s = connected_session();
    let action = s.on_connection_lost();
    assert_eq!(action, LossAction::BeginReconnect);
    assert_eq!(s.state, ConnState::Reconnecting);
    assert_eq!(s.attempts, 0);

    assert!(s.reconnect_should_attempt());
    assert_eq!(s.on_reconnect_failed(), 1);
    assert!(s.reconnect_should_attempt());
    assert_eq!(s.on_reconnect_failed(), 2);
    assert_eq!(s.state, ConnState::Reconnecting);

    assert!(s.reconnect_should_attempt());
    s.on_reconnect_succeeded();
    assert_eq!(s.state, ConnState::Connected);
    assert!(!s.can_receive());
    s.on_subscribe_succeeded();
    assert!(s.can_receive());
}

#[test]
fn only_one_reconnect_episode_at_a_time() {
    // While an episode runs, repeated failures keep the same episode going:
    // the counter grows monotonically and is never reset by another start.
    let mut s = connected_session();
    assert_eq!(s.on_connection_lost(), LossAction::BeginReconnect);
    let mut last: u64 = 0;
    for _ in 0..5 {
        let n = s.on_reconnect_failed();
        assert_eq!(n, last + 1);
        assert_eq!(s.state, ConnState::Reconnecting);
        last = n;
    }
}

#[test]
fn shutdown_while_waiting_stops_without_a_further_attempt() {
    // Shutdown fires while the reconnect loop waits on its delay: the loop
    // exits on its next check without another network attempt.
    let mut s = connected_session();
    assert_eq!(s.on_connection_lost(), LossAction::BeginReconnect);
    assert_eq!(s.on_reconnect_failed(), 1);
    s.shutdown();
    assert!(!s.reconnect_should_attempt());
    assert_eq!(s.state, ConnState::ShuttingDown);
}

#[test]
fn shutdown_suppresses_everything() {
    let mut s = connected_session();
    s.shutdown();
    assert!(s.shutdown_requested);
    assert!(!s.should_run());
    assert!(!s.can_receive());
    // The stream closing during teardown is expected: stop, do not reconnect.
    assert_eq!(s.on_connection_lost(), LossAction::Stop);
    assert_eq!(s.state, ConnState::ShuttingDown);
    assert!(!s.reconnect_should_attempt());
}

#[test]
fn subscribe_failure_forces_reconnect_episode() {
    let mut s = connected_session();
    let action = s.on_subscribe_failed();
    assert_eq!(action, LossAction::BeginReconnect);
    assert_eq!(s.state, ConnState::Reconnecting);
    assert_eq!(s.attempts, 0);
}

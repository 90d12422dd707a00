use natlink::connection::{get_connection_status, ConnectionManager, ConnectionStatus};
use natlink::orchestrator::{start_connection, EstablishError, Scheme};

#[test]
fn new_session_is_disconnected() {
    let mgr = ConnectionManager::new();
    assert_eq!(mgr.status, ConnectionStatus::Disconnected);
    assert_eq!(get_connection_status(&mgr), "Disconnected");
}

#[test]
fn status_renders_all_four_states() {
    let mut mgr = ConnectionManager::new();
    assert_eq!(get_connection_status(&mgr), "Disconnected");
    mgr.status = ConnectionStatus::Connecting;
    assert_eq!(get_connection_status(&mgr), "Connecting...");
    mgr.status = ConnectionStatus::Connected("DynamicIP".to_string());
    assert_eq!(get_connection_status(&mgr), "Connected (DynamicIP)");
    mgr.status = ConnectionStatus::Failed("all schemes failed".to_string());
    assert_eq!(get_connection_status(&mgr), "Failed: all schemes failed");
}

#[test]
fn snapshot_equals_stored_status() {
    let mut mgr = ConnectionManager::new();
    assert_eq!(mgr.status_snapshot(), ConnectionStatus::Disconnected);
    mgr.status = ConnectionStatus::Connected("Relay".to_string());
    assert_eq!(
        mgr.status_snapshot(),
        ConnectionStatus::Connected("Relay".to_string())
    );
}

#[test]
fn begin_attempt_enters_connecting_from_settled_states() {
    let mut mgr = ConnectionManager::new();
    assert!(mgr.begin_attempt());
    assert_eq!(mgr.status, ConnectionStatus::Connecting);

    let mut done = ConnectionManager::new();
    done.status = ConnectionStatus::Connected("Relay".to_string());
    assert!(done.begin_attempt());
    assert_eq!(done.status, ConnectionStatus::Connecting);

    let mut failed = ConnectionManager::new();
    failed.status = ConnectionStatus::Failed("timed out".to_string());
    assert!(failed.begin_attempt());
    assert_eq!(failed.status, ConnectionStatus::Connecting);
}

#[test]
fn second_establish_while_connecting_is_rejected() {
    let mut mgr = ConnectionManager::new();
    let first = start_connection(&mut mgr);
    let attempt = first.expect("fresh session must accept an attempt");
    assert_eq!(attempt.current, Scheme::HolePunch);
    assert_eq!(mgr.status, ConnectionStatus::Connecting);

    // The session is Connecting: a second call is turned away and the
    // in-flight attempt's state is untouched.
    let second = start_connection(&mut mgr);
    assert_eq!(second.err(), Some(EstablishError::AlreadyConnecting));
    assert_eq!(mgr.status, ConnectionStatus::Connecting);
    assert_eq!(attempt.current, Scheme::HolePunch);
    assert!(attempt.attempted.is_empty());
}

#[test]
fn finalizing_overwrites_connecting_only_once_per_attempt() {
    let mut mgr = ConnectionManager::new();
    assert!(mgr.begin_attempt());
    mgr.set_connected("HolePunch".to_string());
    assert_eq!(mgr.status, ConnectionStatus::Connected("HolePunch".to_string()));
    // A settled session accepts a fresh attempt, which resets to Connecting.
    assert!(mgr.begin_attempt());
    mgr.set_failed("timed out".to_string());
    assert_eq!(mgr.status, ConnectionStatus::Failed("timed out".to_string()));
}

use coconut_bot::stream::{backoff_ms, StreamSupervisor, MAX_BACKOFF_MS, MIN_BACKOFF_MS};

#[test]
fn backoff_doubles_from_floor_to_cap() {
    assert_eq!(backoff_ms(0), 1000);
    assert_eq!(backoff_ms(1), 1000);
    assert_eq!(backoff_ms(2), 2000);
    assert_eq!(backoff_ms(3), 4000);
    assert_eq!(backoff_ms(4), 8000);
    assert_eq!(backoff_ms(5), 16000);
    assert_eq!(backoff_ms(6), 30000);
    assert_eq!(backoff_ms(7), 30000);
    assert_eq!(backoff_ms(1_000_000), 30000);
}

#[test]
fn backoff_stays_within_bounds() {
    for n in 0..100u64 {
        let d = backoff_ms(n);
        assert!((MIN_BACKOFF_MS..=MAX_BACKOFF_MS).contains(&d));
    }
}

#[test]
fn malformed_endpoint_refuses_to_start() {
    assert!(StreamSupervisor::new("not a url".to_string()).is_none());
    assert!(StreamSupervisor::new("".to_string()).is_none());
}

#[test]
fn valid_endpoint_starts_disconnected() {
    let s = StreamSupervisor::new("wss://example.org/feed".to_string()).unwrap();
    assert!(!s.connected);
    assert!(s.should_connect());
    assert_eq!(s.consecutive_failures, 0);
}

#[test]
fn reconnect_marker_and_backoff_reset() {
    let mut s = StreamSupervisor::new("wss://example.org/feed".to_string()).unwrap();
    // First connection is not a reconnect.
    assert!(!s.on_connected());
    assert!(!s.should_connect());
    // Two transient losses: backoff grows, the subscription never ends.
    assert_eq!(s.on_disconnected(), 1000);
    assert_eq!(s.on_disconnected(), 2000);
    assert!(s.should_connect());
    // Coming back up is an observable reconnection and resets the backoff.
    assert!(s.on_connected());
    assert_eq!(s.consecutive_failures, 0);
    assert_eq!(s.on_disconnected(), 1000);
}

#[test]
fn permanent_rejection_terminates_the_subscription() {
    let mut s = StreamSupervisor::new("wss://example.org/feed".to_string()).unwrap();
    assert!(s.should_connect());
    s.on_permanent_rejection();
    // Unlike any transient loss, this ends the sequence: no reconnect.
    assert!(!s.should_connect());
}

//! Broadcast queue behaviour: cursors, emptiness, and drop-oldest lag.

use hardware_query::dispatch::{EventDispatcher, Received};
use hardware_query::events::MonitoringEvent;

fn error_event(text: &str, ts: u64) -> MonitoringEvent {
    MonitoringEvent::MonitoringError { error: text.to_string(), timestamp_ms: ts }
}

#[test]
fn receiver_walks_events_in_order() {
    let mut d = EventDispatcher::new(10);
    let mut rx = d.subscribe();
    d.publish(error_event("a", 1));
    d.publish(error_event("b", 2));
    match d.recv(&mut rx) {
        Received::Event(MonitoringEvent::MonitoringError { error, .. }) => assert_eq!(error, "a"),
        _ => panic!("expected the first event"),
    }
    match d.recv(&mut rx) {
        Received::Event(MonitoringEvent::MonitoringError { error, .. }) => assert_eq!(error, "b"),
        _ => panic!("expected the second event"),
    }
    assert!(matches!(d.recv(&mut rx), Received::Empty));
}

#[test]
fn slow_receiver_lags_instead_of_blocking() {
    let mut d = EventDispatcher::new(2);
    let mut rx = d.subscribe();
    d.publish(error_event("a", 1));
    d.publish(error_event("b", 2));
    d.publish(error_event("c", 3));
    // the oldest event was dropped; the receiver is told how many it missed
    match d.recv(&mut rx) {
        Received::Lagged(n) => assert_eq!(n, 1),
        _ => panic!("expected a lag report"),
    }
    match d.recv(&mut rx) {
        Received::Event(MonitoringEvent::MonitoringError { error, .. }) => assert_eq!(error, "b"),
        _ => panic!("expected the oldest retained event"),
    }
    match d.recv(&mut rx) {
        Received::Event(MonitoringEvent::MonitoringError { error, .. }) => assert_eq!(error, "c"),
        _ => panic!("expected the newest event"),
    }
    assert!(matches!(d.recv(&mut rx), Received::Empty));
}

#[test]
fn independent_receivers_each_see_everything() {
    let mut d = EventDispatcher::new(10);
    let mut rx1 = d.subscribe();
    d.publish(error_event("x", 1));
    let mut rx2 = d.subscribe();
    d.publish(error_event("y", 2));
    // the early receiver sees both, the late one only the second
    assert!(matches!(d.recv(&mut rx1), Received::Event(_)));
    assert!(matches!(d.recv(&mut rx1), Received::Event(_)));
    assert!(matches!(d.recv(&mut rx1), Received::Empty));
    match d.recv(&mut rx2) {
        Received::Event(MonitoringEvent::MonitoringError { error, .. }) => assert_eq!(error, "y"),
        _ => panic!("expected only the later event"),
    }
    assert!(matches!(d.recv(&mut rx2), Received::Empty));
}

use texnouz_csms::events::{EventFilter, EventKind};

#[test]
fn event_type_names() {
    assert_eq!(EventKind::ChargePointConnected.event_type(), "charge_point_connected");
    assert_eq!(EventKind::MeterValuesReceived.event_type(), "meter_values_received");
    assert_eq!(EventKind::Error.event_type(), "error");
}

#[test]
fn empty_filter_admits_all() {
    let f = EventFilter { charge_point_id: None, event_types: None };
    assert!(f.matches(EventKind::Error, None));
    assert!(f.matches(EventKind::HeartbeatReceived, Some("CP1")));
}

#[test]
fn charge_point_filter() {
    let f = EventFilter { charge_point_id: Some("CP1".to_string()), event_types: None };
    assert!(f.matches(EventKind::HeartbeatReceived, Some("CP1")));
    assert!(!f.matches(EventKind::HeartbeatReceived, Some("CP2")));
    assert!(!f.matches(EventKind::Error, None));
}

#[test]
fn type_filter_trims_entries() {
    let f = EventFilter {
        charge_point_id: None,
        event_types: Some("transaction_started , transaction_stopped".to_string()),
    };
    assert!(f.matches(EventKind::TransactionStopped, Some("CP1")));
    assert!(f.matches(EventKind::TransactionStarted, None));
    assert!(!f.matches(EventKind::HeartbeatReceived, Some("CP1")));
    let both = EventFilter {
        charge_point_id: Some("CP1".to_string()),
        event_types: Some("error".to_string()),
    };
    assert!(both.matches(EventKind::Error, Some("CP1")));
    assert!(!both.matches(EventKind::Error, Some("CP2")));
}

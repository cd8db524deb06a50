use plant_telemetry::field::{
    accepts_point_kind, update_key, FieldSession, PointKind, SessionState, POLL_INTERVAL_SECS,
    RECONNECT_DELAY_SECS,
};
use plant_telemetry::tagmap::{MappingEntry, TagMap};
use plant_telemetry::telemetry::{field_sample, SampleSource};

fn outcomes(pairs: &[(&str, bool)]) -> Vec<(String, bool)> {
    pairs.iter().map(|(t, ok)| (t.to_string(), *ok)).collect()
}

fn subscribed_session(registered: &[(&str, bool)]) -> FieldSession {
    let mut session = FieldSession::new();
    session.begin_connect();
    session.connect_result(true);
    session.subscription_result(true);
    session.register_tags(&outcomes(registered));
    session
}

#[test]
fn one_failing_tag_does_not_block_the_others() {
    let session = subscribed_session(&[("ns=2;s=T1", false), ("ns=2;s=T2", true), (
        "ns=2;s=T3",
        true,
    )]);
    assert_eq!(session.state(), SessionState::Subscribed);
    assert_eq!(session.monitored_tags(), &vec![
        "ns=2;s=T2".to_string(),
        "ns=2;s=T3".to_string()
    ]);
}

#[test]
fn all_registrations_failing_still_subscribes_with_no_workers() {
    let session = subscribed_session(&[("a", false), ("b", false)]);
    assert_eq!(session.state(), SessionState::Subscribed);
    assert!(session.monitored_tags().is_empty());
}

#[test]
fn connect_failure_falls_back_to_disconnected() {
    let mut session = FieldSession::new();
    session.begin_connect();
    session.connect_result(false);
    assert_eq!(session.state(), SessionState::Disconnected);
    assert!(session.monitored_tags().is_empty());
}

#[test]
fn subscription_failure_discards_the_session() {
    let mut session = FieldSession::new();
    session.begin_connect();
    session.connect_result(true);
    session.subscription_result(false);
    assert_eq!(session.state(), SessionState::Disconnected);
    assert!(session.monitored_tags().is_empty());
}

#[test]
fn healthy_polls_leave_the_session_untouched() {
    let mut session = subscribed_session(&[("a", true)]);
    session.poll_result(true);
    session.poll_result(true);
    assert_eq!(session.state(), SessionState::Subscribed);
    assert_eq!(session.monitored_tags(), &vec!["a".to_string()]);
}

#[test]
fn session_loss_stops_all_workers_and_recovers_exactly_once() {
    let mut session = subscribed_session(&[("a", true), ("b", true)]);

    // The liveness poll finds the session unhealthy: the whole session and
    // every worker of it are discarded at once.
    session.poll_result(false);
    assert_eq!(session.state(), SessionState::Disconnected);
    assert!(session.monitored_tags().is_empty());

    // One fresh connect-subscribe-register pass establishes one fresh
    // worker set.
    session.begin_connect();
    session.connect_result(true);
    session.subscription_result(true);
    session.register_tags(&outcomes(&[("a", true), ("c", true)]));
    assert_eq!(session.state(), SessionState::Subscribed);
    assert_eq!(session.monitored_tags(), &vec!["a".to_string(), "c".to_string()]);
}

#[test]
fn reconnect_delay_is_fixed_and_poll_is_faster() {
    assert_eq!(RECONNECT_DELAY_SECS, 10);
    assert_eq!(POLL_INTERVAL_SECS, 5);
}

#[test]
fn only_numeric_point_kinds_are_accepted() {
    assert!(accepts_point_kind(PointKind::Float));
    assert!(accepts_point_kind(PointKind::Double));
    assert!(accepts_point_kind(PointKind::Int64));
    assert!(!accepts_point_kind(PointKind::Other));
}

fn demo_map() -> TagMap {
    TagMap::from_entries(vec![
        MappingEntry {
            external_id: "EQ-PUMP-1".to_string(),
            scada_tag_candidate: "ns=2;s=P1".to_string(),
        },
        MappingEntry {
            external_id: "EQ-VALVE-2".to_string(),
            scada_tag_candidate: "ns=2;s=V2".to_string(),
        },
    ])
}

#[test]
fn accepted_and_mapped_updates_are_forwarded_under_the_external_id() {
    let map = demo_map();
    let key = update_key(&map, &"ns=2;s=P1".to_string(), PointKind::Double);
    assert_eq!(key, Some("EQ-PUMP-1".to_string()));
}

#[test]
fn updates_of_unsupported_type_are_dropped() {
    let map = demo_map();
    assert_eq!(update_key(&map, &"ns=2;s=P1".to_string(), PointKind::Other), None);
}

#[test]
fn updates_for_unmapped_tags_are_dropped() {
    let map = demo_map();
    assert_eq!(update_key(&map, &"ns=2;s=UNKNOWN".to_string(), PointKind::Int64), None);
}

#[test]
fn field_updates_become_one_entry_samples() {
    let sample = field_sample("EQ-PUMP-1".to_string(), 131250, "2024-01-01T00:00:00Z".to_string());
    assert_eq!(sample.source, SampleSource::Field);
    assert_eq!(sample.timestamp, "2024-01-01T00:00:00Z");
    assert_eq!(sample.values.len(), 1);
    assert_eq!(sample.values[0].key, "EQ-PUMP-1");
    assert_eq!(sample.values[0].milli, 131250);
}

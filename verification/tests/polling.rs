//! The polling loop's decisions: pacing, catalog publication, freshness of
//! frames and of the session document, and disconnection.

use ir_telemetry::{catalog_map, DataVarType, PollCommand, Poller, VarHeaderGeneric};

#[test]
fn interval_derives_from_the_requested_rate() {
    // Two updates per second, passed as hundredths: half a second.
    assert_eq!(Poller::new(200).update_interval_micros, 500_000);
    // Sixty updates per second.
    assert_eq!(Poller::new(6000).update_interval_micros, 16_666);
    // The slowest expressible rate.
    assert_eq!(Poller::new(1).update_interval_micros, 100_000_000);
}

#[test]
fn early_polls_wait_out_the_remainder() {
    let mut p = Poller::new(200);
    let cmd = p.decide(true, 499_999);
    assert_eq!(cmd, PollCommand::Wait { micros: 1 });
    let cmd = p.decide(true, 100_000);
    assert_eq!(cmd, PollCommand::Wait { micros: 400_000 });
    assert!(!p.catalog_published);
}

#[test]
fn first_due_poll_publishes_the_catalog_once() {
    let mut p = Poller::new(200);
    // A poll is due as soon as the whole interval has elapsed.
    assert_eq!(
        p.decide(true, 500_000),
        PollCommand::Sample { publish_catalog: true }
    );
    assert_eq!(
        p.decide(true, 600_000),
        PollCommand::Sample { publish_catalog: false }
    );
}

#[test]
fn disconnect_is_reported_exactly_once_and_ends_polling() {
    let mut p = Poller::new(200);
    assert_eq!(p.decide(false, 0), PollCommand::Disconnect);
    assert!(p.finished);
}

#[test]
fn unchanged_session_revision_publishes_no_document() {
    let mut p = Poller::new(200);
    let first = p.observe(100, 7);
    assert!(first.publish_session); // a fresh connection has seen nothing yet
    assert!(first.publish_frame);
    let second = p.observe(101, 7);
    assert!(!second.publish_session);
    assert!(second.publish_frame);
    let third = p.observe(102, 8);
    assert!(third.publish_session);
}

#[test]
fn unchanged_tick_publishes_no_frame() {
    let mut p = Poller::new(200);
    p.observe(100, 7);
    let again = p.observe(100, 7);
    assert!(!again.publish_frame);
    assert!(!again.publish_session);
}

#[test]
fn catalog_map_is_keyed_by_name_last_wins() {
    let mk = |name: &str, offset: i32| VarHeaderGeneric {
        _type: DataVarType::Int,
        offset,
        count: 1,
        count_as_time: 0,
        name: name.to_string(),
        desc: String::new(),
        unit: String::new(),
    };
    let headers = vec![mk("RPM", 0), mk("Speed", 4), mk("RPM", 8)];
    let map = catalog_map(&headers);
    assert_eq!(map.len(), 2);
    assert_eq!(map.get("RPM").unwrap().offset, 8);
    assert_eq!(map.get("Speed").unwrap().offset, 4);
}

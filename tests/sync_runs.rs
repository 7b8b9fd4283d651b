use ddns_sync::error::SyncError;
use ddns_sync::record::DnsRecord;
use ddns_sync::sync::{provider_url, Action, Event, Outcome, SyncMachine, PROVIDER_COUNT};

fn record(id: &str, content: &str) -> DnsRecord {
    DnsRecord {
        id: id.to_string(),
        record_type: "A".to_string(),
        name: format!("{}.example.com", id),
        content: content.to_string(),
        proxied: id == "rec2",
    }
}

fn ids(list: &[&str]) -> Vec<String> {
    list.iter().map(|s| s.to_string()).collect()
}

fn expect_read(a: &Action, id: &str) {
    match a {
        Action::ReadRecord(r) => assert_eq!(r, id),
        other => panic!("expected a read of {}, got {:?}", id, other),
    }
}

#[test]
fn same_address_means_no_update() {
    let (mut m, first) = SyncMachine::new(ids(&["rec1"]));
    assert!(matches!(first, Action::FetchIp(0)));
    let a = m.step(Event::IpFetched(Some("203.0.113.5\n".to_string())));
    expect_read(&a, "rec1");
    let a = m.step(Event::RecordRead(Ok(record("rec1", "203.0.113.5"))));
    assert!(matches!(a, Action::Finish(Outcome::Unchanged)));
    assert!(m.is_done());
}

#[test]
fn changed_address_updates_both_records() {
    let (mut m, _) = SyncMachine::new(ids(&["rec1", "rec2"]));
    let a = m.step(Event::IpFetched(Some("198.51.100.9".to_string())));
    expect_read(&a, "rec1");
    let a = m.step(Event::RecordRead(Ok(record("rec1", "203.0.113.5"))));
    expect_read(&a, "rec1");
    let mut reads = 2;
    let mut updates = 0;
    for (i, id) in ["rec1", "rec2"].iter().enumerate() {
        let a = m.step(Event::RecordRead(Ok(record(id, "203.0.113.5"))));
        match a {
            Action::UpdateRecord(target, body) => {
                assert_eq!(target, *id);
                assert_eq!(body.content, "198.51.100.9");
                assert_eq!(body.ttl, 120);
                assert_eq!(body.record_type, "A");
                assert_eq!(body.name, format!("{}.example.com", id));
                assert_eq!(body.proxied, *id == "rec2");
                updates += 1;
            }
            other => panic!("expected an update, got {:?}", other),
        }
        let a = m.step(Event::RecordUpdated(Ok(())));
        if i == 0 {
            expect_read(&a, "rec2");
            reads += 1;
        } else {
            assert!(matches!(a, Action::Finish(Outcome::Updated)));
        }
    }
    // one read for the drift check, then one read per record
    assert_eq!(reads, 3);
    assert_eq!(updates, 2);
    assert!(m.is_done());
}

#[test]
fn all_providers_failing_makes_no_dns_call() {
    let (mut m, first) = SyncMachine::new(ids(&["rec1"]));
    assert!(matches!(first, Action::FetchIp(0)));
    let a = m.step(Event::IpFetched(None));
    assert!(matches!(a, Action::FetchIp(1)));
    let a = m.step(Event::IpFetched(None));
    assert!(matches!(a, Action::FetchIp(2)));
    let a = m.step(Event::IpFetched(None));
    assert!(matches!(a, Action::Fail(SyncError::NoProviderAvailable)));
    assert!(m.is_done());
    assert!(!m.accepts(&Event::RecordRead(Ok(record("rec1", "1.2.3.4")))));
}

#[test]
fn first_answering_provider_wins() {
    let (mut m, _) = SyncMachine::new(ids(&["rec1"]));
    let a = m.step(Event::IpFetched(None));
    assert!(matches!(a, Action::FetchIp(1)));
    let a = m.step(Event::IpFetched(Some("  192.0.2.1 \r\n".to_string())));
    expect_read(&a, "rec1");
    assert!(!m.accepts(&Event::IpFetched(None)));
    let a = m.step(Event::RecordRead(Ok(record("rec1", "10.0.0.1"))));
    expect_read(&a, "rec1");
    let a = m.step(Event::RecordRead(Ok(record("rec1", "10.0.0.1"))));
    match a {
        Action::UpdateRecord(_, body) => assert_eq!(body.content, "192.0.2.1"),
        other => panic!("expected an update, got {:?}", other),
    }
}

#[test]
fn body_is_taken_verbatim_once_trimmed() {
    let (mut m, _) = SyncMachine::new(ids(&["rec1"]));
    m.step(Event::IpFetched(Some("not an address\n".to_string())));
    let a = m.step(Event::RecordRead(Ok(record("rec1", " not an address "))));
    assert!(matches!(a, Action::Finish(Outcome::Unchanged)));
}

#[test]
fn no_normalisation_of_addresses() {
    let (mut m, _) = SyncMachine::new(ids(&["rec1"]));
    m.step(Event::IpFetched(Some("203.0.113.5".to_string())));
    let a = m.step(Event::RecordRead(Ok(record("rec1", "203.0.113.05"))));
    expect_read(&a, "rec1");
}

#[test]
fn failed_update_stops_the_run() {
    let (mut m, _) = SyncMachine::new(ids(&["rec1", "rec2", "rec3"]));
    m.step(Event::IpFetched(Some("198.51.100.9".to_string())));
    m.step(Event::RecordRead(Ok(record("rec1", "203.0.113.5"))));
    m.step(Event::RecordRead(Ok(record("rec1", "203.0.113.5"))));
    let a = m.step(Event::RecordUpdated(Ok(())));
    expect_read(&a, "rec2");
    m.step(Event::RecordRead(Ok(record("rec2", "203.0.113.5"))));
    let a = m.step(Event::RecordUpdated(Err("connection reset".to_string())));
    match a {
        Action::Fail(SyncError::ApiError(msg)) => assert_eq!(msg, "connection reset"),
        other => panic!("expected a failure, got {:?}", other),
    }
    assert!(m.is_done());
    assert!(!m.accepts(&Event::RecordRead(Ok(record("rec3", "203.0.113.5")))));
}

#[test]
fn failed_first_read_is_an_api_error() {
    let (mut m, _) = SyncMachine::new(ids(&["rec1"]));
    m.step(Event::IpFetched(Some("198.51.100.9".to_string())));
    let a = m.step(Event::RecordRead(Err("bad envelope".to_string())));
    match a {
        Action::Fail(e) => assert_eq!(e.message(), "bad envelope"),
        other => panic!("expected a failure, got {:?}", other),
    }
}

#[test]
fn failed_resync_read_is_an_api_error() {
    let (mut m, _) = SyncMachine::new(ids(&["rec1", "rec2"]));
    m.step(Event::IpFetched(Some("198.51.100.9".to_string())));
    m.step(Event::RecordRead(Ok(record("rec1", "203.0.113.5"))));
    let a = m.step(Event::RecordRead(Err("timeout".to_string())));
    assert!(matches!(a, Action::Fail(SyncError::ApiError(_))));
    assert!(m.is_done());
}

#[test]
fn stage_accepts_only_its_event() {
    let (m, _) = SyncMachine::new(ids(&["rec1"]));
    assert!(m.accepts(&Event::IpFetched(None)));
    assert!(!m.accepts(&Event::RecordUpdated(Ok(()))));
    assert!(!m.is_done());
}

#[test]
fn providers_in_fixed_order() {
    assert_eq!(PROVIDER_COUNT, 3);
    assert_eq!(provider_url(0), "https://checkip.amazonaws.com");
    assert_eq!(provider_url(1), "https://api.ipify.org");
    assert_eq!(provider_url(2), "https://domains.google.com/checkip");
}

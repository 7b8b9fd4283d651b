use ddns_sync::config::load_config;
use ddns_sync::error::SyncError;
use ddns_sync::record::{authorization_value, record_url, update_body, DnsRecord, UPDATE_TTL};

fn some(s: &str) -> Option<String> {
    Some(s.to_string())
}

#[test]
fn config_with_all_values() {
    let c = load_config(some("tok"), some("zone9"), some("a,b,c")).unwrap();
    assert_eq!(c.api_token, "tok");
    assert_eq!(c.zone_id, "zone9");
    assert_eq!(c.record_ids, vec!["a", "b", "c"]);
}

#[test]
fn config_keeps_empty_pieces() {
    let c = load_config(some("tok"), some("z"), some("a,,b")).unwrap();
    assert_eq!(c.record_ids, vec!["a", "", "b"]);
    let c = load_config(some("tok"), some("z"), some("only")).unwrap();
    assert_eq!(c.record_ids, vec!["only"]);
}

#[test]
fn config_missing_values() {
    assert!(matches!(load_config(None, some("z"), some("a")), Err(SyncError::ConfigurationMissing)));
    assert!(matches!(load_config(some("t"), None, some("a")), Err(SyncError::ConfigurationMissing)));
    assert!(matches!(load_config(some("t"), some("z"), None), Err(SyncError::ConfigurationMissing)));
    assert!(matches!(load_config(some("t"), some("z"), some("")), Err(SyncError::ConfigurationMissing)));
}

#[test]
fn urls_and_header() {
    assert_eq!(
        record_url("zone9", "rec1"),
        "https://api.cloudflare.com/client/v4/zones/zone9/dns_records/rec1"
    );
    assert_eq!(authorization_value("tok123"), "Bearer tok123");
}

#[test]
fn update_body_keeps_record_fields() {
    let rec = DnsRecord {
        id: "r".to_string(),
        record_type: "A".to_string(),
        name: "home.example.com".to_string(),
        content: "203.0.113.5".to_string(),
        proxied: true,
    };
    let b = update_body(&rec, "198.51.100.9");
    assert_eq!(b.record_type, "A");
    assert_eq!(b.name, "home.example.com");
    assert_eq!(b.content, "198.51.100.9");
    assert_eq!(b.ttl, 120);
    assert_eq!(UPDATE_TTL, 120);
    assert!(b.proxied);
}

#[test]
fn error_messages() {
    assert_eq!(SyncError::ApiError("boom".to_string()).message(), "boom");
    assert!(!SyncError::NoProviderAvailable.message().is_empty());
    assert!(!SyncError::ConfigurationMissing.message().is_empty());
}

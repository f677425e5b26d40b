use lib::{Metadata, PickupNote, PickupStatus};
use std::time::Duration;

#[test]
fn test_pickup_note_creation() {
    let pn = PickupNote::new("cache-warm", "Warm the response cache");
    assert_eq!(pn.id(), "cache-warm");
    assert_eq!(pn.description(), "Warm the response cache");
    assert!(pn.is_ready());
    assert!(!pn.is_completed());
    assert_eq!(pn.criticality(), 5);
}

#[test]
fn test_pickup_note_with_options() {
    let pn = PickupNote::new("db-pool", "Initialize DB connection pool")
        .with_duration(Duration::from_secs(2))
        .with_criticality(9)
        .depends_on("config-load")
        .with_metadata("pool_size", "10");
    assert_eq!(pn.estimated_duration(), Duration::from_secs(2));
    assert_eq!(pn.criticality(), 9);
    assert!(pn.is_essential());
    assert_eq!(pn.dependencies(), &["config-load"]);
    assert_eq!(pn.metadata().get("pool_size"), Some(&"10".to_string()));
}

#[test]
fn test_pickup_note_lifecycle() {
    let mut pn = PickupNote::new("test", "Test pickup");
    assert!(pn.is_ready());
    pn.start();
    assert!(!pn.is_ready());
    pn.complete();
    assert!(pn.is_completed());
    assert!(pn.actual_duration().is_some());
}

#[test]
fn test_pickup_note_failure() {
    let mut pn = PickupNote::new("test", "Test pickup");
    pn.start();
    pn.fail("connection refused");
    assert!(pn.is_failed());
    assert!(!pn.is_completed());
    match pn.status() {
        PickupStatus::Failed(reason) => assert_eq!(reason, "connection refused"),
        _ => panic!("Expected Failed status"),
    }
}

#[test]
fn test_pickup_note_essential() {
    let essential = PickupNote::new("e", "essential").with_criticality(8);
    assert!(essential.is_essential());
    let optional = PickupNote::new("o", "optional").with_criticality(3);
    assert!(!optional.is_essential());
}

#[test]
fn default_estimate_is_100_ms() {
    let pn = PickupNote::new("a", "b");
    assert_eq!(pn.estimated_duration(), Duration::from_millis(100));
    assert_eq!(pn.status(), &PickupStatus::Pending);
    assert!(pn.dependencies().is_empty());
    assert!(pn.actual_duration().is_none());
}

#[test]
fn criticality_is_capped_at_ten() {
    let pn = PickupNote::new("a", "b").with_criticality(200);
    assert_eq!(pn.criticality(), 10);
    assert!(pn.is_essential());
    let pn = PickupNote::new("a", "b").with_criticality(0);
    assert_eq!(pn.criticality(), 0);
    let pn = PickupNote::new("a", "b").with_criticality(7);
    assert!(!pn.is_essential());
}

#[test]
fn start_marks_in_progress() {
    let mut pn = PickupNote::new("a", "b");
    pn.start();
    assert_eq!(pn.status(), &PickupStatus::InProgress);
    assert!(!pn.is_completed());
    assert!(!pn.is_failed());
}

#[test]
fn completing_without_start_measures_nothing() {
    let mut pn = PickupNote::new("a", "b");
    pn.complete();
    assert!(pn.is_completed());
    assert!(pn.actual_duration().is_none());
    let mut pn = PickupNote::new("a", "b");
    pn.fail("no start");
    assert!(pn.is_failed());
    assert!(pn.actual_duration().is_none());
}

#[test]
fn failed_after_start_is_measured() {
    let mut pn = PickupNote::new("a", "b");
    pn.start();
    pn.fail("boom");
    assert!(pn.actual_duration().is_some());
    assert_eq!(pn.status(), &PickupStatus::Failed("boom".to_string()));
}

#[test]
fn dependencies_keep_their_order() {
    let pn = PickupNote::new("a", "b").depends_on("x").depends_on("y").depends_on("x");
    assert_eq!(pn.dependencies(), &["x", "y", "x"]);
}

#[test]
fn metadata_read_after_write() {
    let pn = PickupNote::new("a", "b")
        .with_metadata("k", "1")
        .with_metadata("j", "2")
        .with_metadata("k", "3");
    assert_eq!(pn.metadata().get("k"), Some(&"3".to_string()));
    assert_eq!(pn.metadata().get("j"), Some(&"2".to_string()));
    assert_eq!(pn.metadata().get("missing"), None);
}

#[test]
fn metadata_map_insert_and_get() {
    let mut m = Metadata::new();
    assert_eq!(m.get("x"), None);
    m.insert("x".to_string(), "1".to_string());
    m.insert("y".to_string(), "2".to_string());
    m.insert("x".to_string(), "9".to_string());
    assert_eq!(m.get("x"), Some(&"9".to_string()));
    assert_eq!(m.get("y"), Some(&"2".to_string()));
}

#[test]
fn metadata_size_and_lookup() {
    let mut m = Metadata::new();
    assert!(m.is_empty());
    assert_eq!(m.len(), 0);
    m.insert("x".to_string(), "1".to_string());
    m.insert("y".to_string(), "2".to_string());
    m.insert("x".to_string(), "3".to_string());
    assert!(!m.is_empty());
    assert_eq!(m.len(), 2);
    assert!(m.contains_key("x"));
    assert!(!m.contains_key("z"));
    let entries = m.entries();
    assert_eq!(entries.len(), 2);
    assert_eq!(entries[0], ("x".to_string(), "3".to_string()));
    assert_eq!(entries[1], ("y".to_string(), "2".to_string()));
    let copy = m.clone();
    assert_eq!(copy.get("x"), Some(&"3".to_string()));
    assert_eq!(copy.len(), 2);
}

#[test]
fn identity_survives_every_call() {
    let mut pn = PickupNote::new("id-1", "desc")
        .with_duration(Duration::from_secs(1))
        .with_criticality(9)
        .depends_on("other")
        .with_metadata("k", "v");
    pn.start();
    pn.fail("x");
    pn.complete();
    assert_eq!(pn.id(), "id-1");
    assert_eq!(pn.description(), "desc");
}

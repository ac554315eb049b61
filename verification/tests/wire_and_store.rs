use torrust_index::key_store::KeyStore;
use torrust_index::tracker_key::TrackerKey;
use torrust_index::wire;

#[test]
fn decimal_rendering_is_exact() {
    assert_eq!(wire::u64_to_dec(0), "0");
    assert_eq!(wire::u64_to_dec(7), "7");
    assert_eq!(wire::u64_to_dec(10), "10");
    assert_eq!(wire::u64_to_dec(3600), "3600");
    assert_eq!(wire::u64_to_dec(18446744073709551615), "18446744073709551615");
}

#[test]
fn announce_url_is_base_slash_key() {
    assert_eq!(wire::announce_url("udp://t.example:6969", "abc123"), "udp://t.example:6969/abc123");
    assert_eq!(wire::announce_url("", ""), "/");
}

#[test]
fn administrative_urls_are_exact() {
    assert_eq!(wire::issue_key_url("http://a", 120, "tok"), "http://a/api/key/120?token=tok");
    assert_eq!(
        wire::whitelist_url("http://a", "deadbeef", "tok"),
        "http://a/api/whitelist/deadbeef?token=tok"
    );
    assert_eq!(
        wire::swarm_url("http://a", "deadbeef", "tok"),
        "http://a/api/torrent/deadbeef?token=tok"
    );
}

#[test]
fn empty_store_has_no_valid_key() {
    let store = KeyStore::new();
    assert!(store.get_valid_tracker_key(0, 0).is_none());
    assert!(store.get_valid_tracker_key(-5, 1_000_000).is_none());
}

#[test]
fn key_validity_is_strictly_before_valid_until() {
    let mut store = KeyStore::new();
    store.issue_tracker_key(&TrackerKey { key: "k".to_string(), valid_until: 100 }, 1);
    assert!(store.get_valid_tracker_key(1, 99).is_some());
    // At exactly `valid_until` the key is no longer valid.
    assert!(store.get_valid_tracker_key(1, 100).is_none());
    assert!(store.get_valid_tracker_key(1, 101).is_none());

    let key = TrackerKey { key: "k".to_string(), valid_until: 100 };
    assert!(key.is_valid_at(99));
    assert!(!key.is_valid_at(100));
}

#[test]
fn issuing_again_supersedes_the_previous_record() {
    let mut store = KeyStore::new();
    store.issue_tracker_key(&TrackerKey { key: "first".to_string(), valid_until: 10 }, 1);
    store.issue_tracker_key(&TrackerKey { key: "second".to_string(), valid_until: 20 }, 1);
    let held = store.get_valid_tracker_key(1, 5).unwrap();
    assert_eq!(held.key, "second");
    assert_eq!(held.valid_until, 20);
}

#[test]
fn records_of_different_users_are_independent() {
    let mut store = KeyStore::new();
    store.issue_tracker_key(&TrackerKey { key: "a".to_string(), valid_until: 10 }, 1);
    store.issue_tracker_key(&TrackerKey { key: "b".to_string(), valid_until: 20 }, 2);
    store.issue_tracker_key(&TrackerKey { key: "c".to_string(), valid_until: 30 }, 1);
    assert_eq!(store.get_valid_tracker_key(1, 5).unwrap().key, "c");
    assert_eq!(store.get_valid_tracker_key(2, 5).unwrap().key, "b");
    assert!(store.get_valid_tracker_key(3, 5).is_none());
}

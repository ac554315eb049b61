use std::sync::Arc;
use torrust_index::config::TrackerConfig;
use torrust_index::errors::ServiceError;
use torrust_index::key_store::KeyStore;
use torrust_index::tracker::{
    AnnounceStep, IssueReply, SwarmReply, TorrentInfo, TrackerService, WhitelistReply,
};
use torrust_index::tracker_key::TrackerKey;

fn test_config() -> TrackerConfig {
    TrackerConfig {
        url: "udp://tracker.example:6969".to_string(),
        api_url: "http://tracker.example:1212".to_string(),
        token: "MyAccessToken".to_string(),
        token_valid_seconds: 3600,
    }
}

fn service() -> TrackerService {
    TrackerService::new(Arc::new(test_config()))
}

#[test]
fn fresh_user_issues_exactly_one_key_and_url_embeds_it() {
    // A user with no prior key: the lookup misses, one issuance is
    // demanded, and the announce URL embeds the issued key.
    let svc = service();
    let mut store = KeyStore::new();
    let now: i64 = 1_000_000;

    let cached = store.get_valid_tracker_key(42, now);
    assert!(cached.is_none());

    let step = svc.get_personal_announce_url(&cached, now);
    assert!(matches!(step, AnnounceStep::IssueNeeded(3600)));

    let reply = IssueReply::Answered {
        success: true,
        body: Some(TrackerKey { key: "abc123".to_string(), valid_until: now + 3600 }),
    };
    let url = svc.announce_url_issued(&mut store, 42, reply).unwrap();
    assert_eq!(url, "udp://tracker.example:6969/abc123");

    // The store now holds (user, "abc123", now + 3600).
    let held = store.get_valid_tracker_key(42, now).unwrap();
    assert_eq!(held.key, "abc123");
    assert_eq!(held.valid_until, now + 3600);
}

#[test]
fn valid_cached_key_issues_nothing() {
    // A still-valid cached key: the URL is ready at once, with no
    // issuance step demanded.
    let svc = service();
    let mut store = KeyStore::new();
    let key = TrackerKey { key: "cached0".to_string(), valid_until: 500 };
    store.issue_tracker_key(&key, 7);

    let cached = store.get_valid_tracker_key(7, 499);
    assert_eq!(cached.as_ref().unwrap().key, "cached0");

    match svc.get_personal_announce_url(&cached, 499) {
        AnnounceStep::Ready(url) => {
            assert_eq!(url, "udp://tracker.example:6969/cached0");
        }
        AnnounceStep::IssueNeeded(_) => panic!("no issuance may happen for a valid key"),
    }
}

#[test]
fn expired_key_is_superseded_by_the_new_one() {
    // An expired key: the lookup misses, one new key is issued, and
    // the store afterwards reports the new key as the current one.
    let svc = service();
    let mut store = KeyStore::new();
    store.issue_tracker_key(&TrackerKey { key: "stale".to_string(), valid_until: 100 }, 7);

    let cached = store.get_valid_tracker_key(7, 100);
    assert!(cached.is_none());
    assert!(matches!(
        svc.get_personal_announce_url(&cached, 100),
        AnnounceStep::IssueNeeded(3600)
    ));

    let reply = IssueReply::Answered {
        success: true,
        body: Some(TrackerKey { key: "fresh".to_string(), valid_until: 3700 }),
    };
    let url = svc.announce_url_issued(&mut store, 7, reply).unwrap();
    assert_eq!(url, "udp://tracker.example:6969/fresh");

    let held = store.get_valid_tracker_key(7, 101).unwrap();
    assert_eq!(held.key, "fresh");
    assert_eq!(held.valid_until, 3700);
}

#[test]
fn failed_issuance_reports_tracker_unavailable_and_leaves_store_unmodified() {
    let svc = service();
    let mut store = KeyStore::new();
    store.issue_tracker_key(&TrackerKey { key: "old".to_string(), valid_until: 100 }, 9);

    // At time 200 the old key is expired, so an issuance is demanded.
    let failures = [
        IssueReply::Unreachable,
        IssueReply::Answered { success: false, body: None },
        IssueReply::Answered { success: true, body: None },
        IssueReply::Answered {
            success: false,
            body: Some(TrackerKey { key: "ignored".to_string(), valid_until: 9999 }),
        },
    ];
    for reply in failures {
        let r = svc.announce_url_issued(&mut store, 9, reply);
        assert_eq!(r, Err(ServiceError::TrackerUnavailable));
    }

    // The store still answers as before: the old record is intact.
    let held = store.get_valid_tracker_key(9, 99).unwrap();
    assert_eq!(held.key, "old");
    assert_eq!(held.valid_until, 100);
}

#[test]
fn retrieve_new_tracker_key_persists_on_success_only() {
    let svc = service();
    let mut store = KeyStore::new();

    let r = svc.retrieve_new_tracker_key(&mut store, 3, IssueReply::Unreachable);
    assert!(matches!(r, Err(ServiceError::TrackerUnavailable)));
    assert!(store.get_valid_tracker_key(3, 0).is_none());

    let issued = TrackerKey { key: "k1".to_string(), valid_until: 50 };
    let r = svc
        .retrieve_new_tracker_key(&mut store, 3, IssueReply::Answered {
            success: true,
            body: Some(issued),
        })
        .unwrap();
    assert_eq!(r.key, "k1");
    assert_eq!(r.valid_until, 50);
    assert_eq!(store.get_valid_tracker_key(3, 0).unwrap().key, "k1");
}

#[test]
fn expired_cached_key_still_demands_an_issuance() {
    // Even when a key record is handed to the flow directly, expiry is
    // re-checked at the moment of the call.
    let svc = service();
    let cached = Some(TrackerKey { key: "stale".to_string(), valid_until: 100 });
    assert!(matches!(
        svc.get_personal_announce_url(&cached, 100),
        AnnounceStep::IssueNeeded(3600)
    ));
    assert!(matches!(
        svc.get_personal_announce_url(&cached, 99),
        AnnounceStep::Ready(_)
    ));
}

#[test]
fn whitelist_succeeds_iff_the_remote_status_is_success() {
    let svc = service();
    assert_eq!(svc.whitelist_info_hash(WhitelistReply::Answered { success: true }), Ok(()));
    assert_eq!(
        svc.whitelist_info_hash(WhitelistReply::Answered { success: false }),
        Err(ServiceError::TrackerUnavailable)
    );
    assert_eq!(
        svc.whitelist_info_hash(WhitelistReply::Unreachable),
        Err(ServiceError::TrackerUnavailable)
    );
}

#[test]
fn unreachable_tracker_fails_whitelist_with_tracker_unavailable() {
    // Whitelisting "deadbeef" repeated to a 40-character info-hash
    // while the tracker is unreachable: the one failure kind, and no
    // state anywhere to change.
    let svc = service();
    let info_hash = "deadbeef".repeat(5);
    assert_eq!(info_hash.len(), 40);
    let request = svc.whitelist_request(&info_hash);
    assert_eq!(
        request,
        "http://tracker.example:1212/api/whitelist/deadbeefdeadbeefdeadbeefdeadbeefdeadbeef?token=MyAccessToken"
    );
    let r = svc.whitelist_info_hash(WhitelistReply::Unreachable);
    assert_eq!(r, Err(ServiceError::TrackerUnavailable));
}

fn swarm_reply(seeders: i64) -> SwarmReply {
    SwarmReply::Answered {
        body: Some(TorrentInfo {
            info_hash: "deadbeefdeadbeefdeadbeefdeadbeefdeadbeef".to_string(),
            seeders,
            leechers: 2,
            peers: Vec::new(),
        }),
    }
}

#[test]
fn swarm_info_reflects_each_fresh_fetch() {
    // No local cache: two consecutive calls each report their own
    // remote reply, so a change between fetches is visible.
    let svc = service();
    let first = svc.get_torrent_info(swarm_reply(1)).unwrap();
    assert_eq!(first.seeders, 1);
    let second = svc.get_torrent_info(swarm_reply(5)).unwrap();
    assert_eq!(second.seeders, 5);
    assert_eq!(second.leechers, 2);
}

#[test]
fn swarm_info_failures_collapse_to_tracker_unavailable() {
    let svc = service();
    assert!(matches!(
        svc.get_torrent_info(SwarmReply::Unreachable),
        Err(ServiceError::TrackerUnavailable)
    ));
    assert!(matches!(
        svc.get_torrent_info(SwarmReply::Answered { body: None }),
        Err(ServiceError::TrackerUnavailable)
    ));
}

#[test]
fn request_urls_follow_the_administrative_api() {
    let svc = service();
    assert_eq!(
        svc.issue_key_request(),
        "http://tracker.example:1212/api/key/3600?token=MyAccessToken"
    );
    assert_eq!(
        svc.swarm_info_request("00112233445566778899aabbccddeeff00112233"),
        "http://tracker.example:1212/api/torrent/00112233445566778899aabbccddeeff00112233?token=MyAccessToken"
    );
}

#[test]
fn error_kinds_are_distinct_and_presentable() {
    assert_ne!(ServiceError::TrackerUnavailable, ServiceError::KeyStoreFailure);
    assert_eq!(ServiceError::TrackerUnavailable.message(), "tracker unavailable");
    assert_eq!(ServiceError::KeyStoreFailure.message(), "key store failure");
}

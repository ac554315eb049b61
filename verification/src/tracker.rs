//! The tracker service: the orchestrator behind announce-URL issuance,
//! info-hash whitelisting and swarm-statistics retrieval.
//!
//! The tracker itself is a separate process reachable only over HTTP,
//! and the key store may live in a database; neither transport is part
//! of this library. Each operation is therefore split at its suspension
//! points: the service decides from plain values (the key store's
//! answer, the tracker's reply) and the surrounding process performs
//! the remote call it is told to make and hands the outcome back. The
//! service holds no mutable state of its own, so one instance is
//! safely shared across concurrent requests.

use crate::config::TrackerConfig;
use crate::errors::ServiceError;
use crate::key_store::KeyStore;
use crate::key_store::store_valid_key;
use crate::tracker_key::TrackerKey;
use crate::wire;
use std::sync::Arc;
use vstd::prelude::*;

verus! {

/// Live swarm statistics for one torrent, fetched fresh on every
/// request and owned transiently by the caller; never persisted here.
pub struct TorrentInfo {
    pub info_hash: String,
    pub seeders: i64,
    pub leechers: i64,
    pub peers: Vec<Vec<Peer>>,
}

/// A snapshot of one swarm participant. Every field is optional: the
/// tracker may omit any of them depending on peer state, and this
/// subsystem must not assume completeness.
pub struct Peer {
    pub id: Option<String>,
    pub client: Option<String>,
    pub ip: Option<String>,
    pub updated: Option<i64>,
    pub uploaded: Option<i64>,
    pub downloaded: Option<i64>,
    pub left: Option<i64>,
    pub event: Option<String>,
}

/// What one issue-key exchange with the tracker came to: no answer at
/// all, or an answer with a status class and, when the body was
/// well-formed, the credential it carried.
pub enum IssueReply {
    /// Transport failure or timeout: the tracker never answered.
    Unreachable,
    /// The tracker answered; `body` holds the parsed credential when
    /// the body was a well-formed key record, and `None` otherwise.
    Answered { success: bool, body: Option<TrackerKey> },
}

/// What one whitelist exchange came to; only the status class matters.
pub enum WhitelistReply {
    Unreachable,
    Answered { success: bool },
}

/// What one swarm-statistics exchange came to; `body` holds the parsed
/// statistics when the body was well-formed, and `None` otherwise.
pub enum SwarmReply {
    Unreachable,
    Answered { body: Option<TorrentInfo> },
}

/// The credential an issue exchange yielded: present exactly when the
/// tracker answered with a success status and a well-formed body.
pub open spec fn issued_key(reply: IssueReply) -> Option<TrackerKey> {
    match reply {
        IssueReply::Unreachable => None,
        IssueReply::Answered { success, body } => if success {
            body
        } else {
            None
        },
    }
}

/// Whether a whitelist exchange succeeded: exactly when the tracker
/// answered with a success status.
pub open spec fn whitelist_ok(reply: WhitelistReply) -> bool {
    reply matches WhitelistReply::Answered { success } && success
}

/// What a swarm-statistics fetch returns for a given reply: the parsed
/// statistics, or `TrackerUnavailable` on transport failure or an
/// unparseable body.
pub open spec fn swarm_result(reply: SwarmReply) -> Result<TorrentInfo, ServiceError> {
    match reply {
        SwarmReply::Unreachable => Err(ServiceError::TrackerUnavailable),
        SwarmReply::Answered { body } => match body {
            Some(info) => Ok(info),
            None => Err(ServiceError::TrackerUnavailable),
        },
    }
}

/// Whether the announce flow must ask the tracker for a new key, given
/// what the key store answered: yes exactly when the store reported no
/// currently valid key.
pub open spec fn needs_issue(cached: Option<TrackerKey>, now: int) -> bool {
    match cached {
        Some(k) => !k.valid_at(now),
        None => true,
    }
}

/// Interprets the tracker's answer to an issue request: the issued
/// credential, or `TrackerUnavailable` when the tracker did not
/// answer, answered with a non-success status, or answered with a
/// malformed body — the three failure modes are indistinguishable to
/// callers and deliberately collapse into one kind.
pub fn interpret_issue_reply(reply: IssueReply) -> (r: Result<TrackerKey, ServiceError>)
    ensures
        (match issued_key(reply) {
            Some(k) => r == Ok::<TrackerKey, ServiceError>(k),
            None => r == Err::<TrackerKey, ServiceError>(ServiceError::TrackerUnavailable),
        }),
{
    match reply {
        IssueReply::Unreachable => Err(ServiceError::TrackerUnavailable),
        IssueReply::Answered { success, body } => {
            if success {
                match body {
                    Some(k) => Ok(k),
                    None => Err(ServiceError::TrackerUnavailable),
                }
            } else {
                Err(ServiceError::TrackerUnavailable)
            }
        },
    }
}

/// The announce flow's next move: either the URL is ready (built from
/// a cached, still-valid key — no remote call), or the tracker must be
/// asked to issue a key with the given TTL.
pub enum AnnounceStep {
    Ready(String),
    IssueNeeded(u64),
}

/// The orchestrator. It holds a shared, read-only reference to the
/// configuration and owns no mutable state; keys persist in the key
/// store, which is passed in by the caller.
pub struct TrackerService {
    cfg: Arc<TrackerConfig>,
}

impl TrackerService {
    /// The configuration this service was built with.
    pub closed spec fn config(&self) -> TrackerConfig {
        *self.cfg
    }

    pub fn new(cfg: Arc<TrackerConfig>) -> (r: TrackerService)
        ensures
            r.config() == *cfg,
    {
        TrackerService { cfg }
    }

    /// The administrative request URL that asks the tracker to issue a
    /// key with the configured TTL.
    pub fn issue_key_request(&self) -> (r: String)
        ensures
            r@ == wire::issue_key_url_seq(
                self.config().api_url@,
                self.config().token_valid_seconds as nat,
                self.config().token@,
            ),
    {
        wire::issue_key_url(
            self.cfg.api_url.as_str(),
            self.cfg.token_valid_seconds,
            self.cfg.token.as_str(),
        )
    }

    /// The administrative request URL that whitelists `info_hash`.
    pub fn whitelist_request(&self, info_hash: &str) -> (r: String)
        ensures
            r@ == wire::whitelist_url_seq(
                self.config().api_url@,
                info_hash@,
                self.config().token@,
            ),
    {
        wire::whitelist_url(self.cfg.api_url.as_str(), info_hash, self.cfg.token.as_str())
    }

    /// The administrative request URL that fetches swarm statistics
    /// for `info_hash`.
    pub fn swarm_info_request(&self, info_hash: &str) -> (r: String)
        ensures
            r@ == wire::swarm_url_seq(self.config().api_url@, info_hash@, self.config().token@),
    {
        wire::swarm_url(self.cfg.api_url.as_str(), info_hash, self.cfg.token.as_str())
    }

    /// First half of the announce flow. `cached` is what the key store
    /// answered for this user. If it holds a still-valid key, the
    /// announce URL is ready and embeds that key — no remote call is
    /// made. Otherwise (no key ever issued, or the key has expired)
    /// the tracker must be asked for one key with the configured TTL;
    /// the caller performs that call and finishes the flow with
    /// `announce_url_issued`. Freshness is checked here and only here,
    /// by a single point-in-time comparison.
    pub fn get_personal_announce_url(&self, cached: &Option<TrackerKey>, now: i64) -> (r:
        AnnounceStep)
        ensures
            (*cached) matches Some(k) ==> (k.valid_at(now as int) ==> (r
                matches AnnounceStep::Ready(u) && u@ == wire::announce_url_seq(
                self.config().url@,
                k.key@,
            ))),
            needs_issue(*cached, now as int) ==> r == AnnounceStep::IssueNeeded(
                self.config().token_valid_seconds,
            ),
    {
        match cached {
            Some(k) => {
                if k.is_valid_at(now) {
                    AnnounceStep::Ready(
                        wire::announce_url(self.cfg.url.as_str(), k.key.as_str()),
                    )
                } else {
                    AnnounceStep::IssueNeeded(self.cfg.token_valid_seconds)
                }
            },
            None => AnnounceStep::IssueNeeded(self.cfg.token_valid_seconds),
        }
    }

    /// Interprets the tracker's answer to an issue request and, on
    /// success, persists the new key for `user_id` — immediately, and
    /// before anything else sees it. On any failure (no answer,
    /// non-success status, malformed body) the store is left exactly
    /// as it was and the caller gets `TrackerUnavailable`. No retry is
    /// attempted: retry policy belongs to the caller.
    pub fn retrieve_new_tracker_key(
        &self,
        store: &mut KeyStore,
        user_id: i64,
        reply: IssueReply,
    ) -> (r: Result<TrackerKey, ServiceError>)
        requires
            old(store).wf(),
        ensures
            final(store).wf(),
            (match issued_key(reply) {
                Some(k) => r == Ok::<TrackerKey, ServiceError>(k) && final(store)@ == old(
                    store,
                )@.insert(user_id, k),
                None => r == Err::<TrackerKey, ServiceError>(ServiceError::TrackerUnavailable)
                    && *final(store) == *old(store),
            }),
    {
        match interpret_issue_reply(reply) {
            Ok(k) => {
                store.issue_tracker_key(&k, user_id);
                Ok(k)
            },
            Err(e) => Err(e),
        }
    }

    /// Second half of the announce flow, entered when
    /// `get_personal_announce_url` demanded an issuance: persists the
    /// newly issued key and returns the announce URL embedding it, or
    /// `TrackerUnavailable` — with the store untouched — when the
    /// issue exchange failed.
    pub fn announce_url_issued(
        &self,
        store: &mut KeyStore,
        user_id: i64,
        reply: IssueReply,
    ) -> (r: Result<String, ServiceError>)
        requires
            old(store).wf(),
        ensures
            final(store).wf(),
            (match issued_key(reply) {
                Some(k) => (r matches Ok(u) && u@ == wire::announce_url_seq(
                    self.config().url@,
                    k.key@,
                )) && final(store)@ == old(store)@.insert(user_id, k),
                None => r == Err::<String, ServiceError>(ServiceError::TrackerUnavailable)
                    && *final(store) == *old(store),
            }),
    {
        match self.retrieve_new_tracker_key(store, user_id, reply) {
            Ok(k) => Ok(wire::announce_url(self.cfg.url.as_str(), k.key.as_str())),
            Err(_) => Err(ServiceError::TrackerUnavailable),
        }
    }

    /// Interprets the tracker's answer to a whitelist request: success
    /// exactly when the tracker answered with a success status; any
    /// other status or a transport failure is `TrackerUnavailable`.
    /// Whitelisting an already-whitelisted hash is not an error. There
    /// is no local fallback and no retry.
    pub fn whitelist_info_hash(&self, reply: WhitelistReply) -> (r: Result<(), ServiceError>)
        ensures
            r is Ok <==> whitelist_ok(reply),
            !whitelist_ok(reply) ==> r == Err::<(), ServiceError>(ServiceError::TrackerUnavailable),
    {
        match reply {
            WhitelistReply::Answered { success } => {
                if success {
                    Ok(())
                } else {
                    Err(ServiceError::TrackerUnavailable)
                }
            },
            WhitelistReply::Unreachable => Err(ServiceError::TrackerUnavailable),
        }
    }

    /// Interprets the tracker's answer to a swarm-statistics fetch.
    /// The result is a function of this call's reply alone: the
    /// service keeps no cache, so every call reflects one fresh remote
    /// fetch performed by the caller.
    pub fn get_torrent_info(&self, reply: SwarmReply) -> (r: Result<TorrentInfo, ServiceError>)
        ensures
            r == swarm_result(reply),
    {
        match reply {
            SwarmReply::Unreachable => Err(ServiceError::TrackerUnavailable),
            SwarmReply::Answered { body } => {
                match body {
                    Some(info) => Ok(info),
                    None => Err(ServiceError::TrackerUnavailable),
                }
            },
        }
    }
}

/// A user with no record in the key store: the lookup reports no valid
/// key, so the announce flow demands exactly one issuance; and once a
/// key `k` issued for the user is persisted, the store's record for
/// the user is `k` — the returned URL embeds that very key.
pub proof fn lemma_announce_no_prior_key(
    m: Map<i64, TrackerKey>,
    user_id: i64,
    now: int,
    k: TrackerKey,
)
    requires
        !m.contains_key(user_id),
    ensures
        store_valid_key(m, user_id, now) is None,
        needs_issue(store_valid_key(m, user_id, now), now),
        m.insert(user_id, k)[user_id] == k,
{
}

/// A user whose record is still valid at `now`: the lookup returns
/// exactly that record and the announce flow needs no issuance — zero
/// remote calls — so the URL embeds the cached key.
pub proof fn lemma_announce_cached_valid_key(m: Map<i64, TrackerKey>, user_id: i64, now: int)
    requires
        m.contains_key(user_id),
        m[user_id].valid_at(now),
    ensures
        store_valid_key(m, user_id, now) == Some(m[user_id]),
        !needs_issue(store_valid_key(m, user_id, now), now),
{
}

/// A user whose record has expired at `now`: the lookup reports no
/// valid key (the record is superseded, never deleted), the announce
/// flow demands exactly one issuance, and after a new key `k2` is
/// persisted the store reports `k2` as the user's current key for as
/// long as it remains valid.
pub proof fn lemma_announce_expired_key(
    m: Map<i64, TrackerKey>,
    user_id: i64,
    now: int,
    k2: TrackerKey,
    later: int,
)
    requires
        m.contains_key(user_id),
        !m[user_id].valid_at(now),
        k2.valid_at(later),
    ensures
        store_valid_key(m, user_id, now) is None,
        needs_issue(store_valid_key(m, user_id, now), now),
        store_valid_key(m.insert(user_id, k2), user_id, later) == Some(k2),
{
}

/// Two racing announce flows for one user may both decide the key is
/// missing and both issue one; whichever persist lands last is the
/// user's record. The cost of the race is at most one redundant
/// issuance — never a corrupted or duplicated record.
pub proof fn lemma_racing_issuances_leave_one_record(
    m: Map<i64, TrackerKey>,
    user_id: i64,
    k1: TrackerKey,
    k2: TrackerKey,
)
    ensures
        m.insert(user_id, k1).insert(user_id, k2) == m.insert(user_id, k2),
{
    assert(m.insert(user_id, k1).insert(user_id, k2) =~= m.insert(user_id, k2));
}

} // verus!

//! The key store: one announce-key record per user, with lazy expiry.
//!
//! This is the in-memory form of the store the tracker service talks
//! to. It keeps at most one record per user; issuing a key for a user
//! who already has one supersedes the old record, it never deletes a
//! record. The store is modelled as a map from user id to the user's
//! current key.

use crate::tracker_key::TrackerKey;
use vstd::prelude::*;

verus! {

/// The currently valid key the store reports for `user_id` at time
/// `now`: the user's record, provided one exists and has not expired.
pub open spec fn store_valid_key(m: Map<i64, TrackerKey>, user_id: i64, now: int) -> Option<
    TrackerKey,
> {
    if m.contains_key(user_id) && m[user_id].valid_at(now) {
        Some(m[user_id])
    } else {
        None
    }
}

/// One announce-key record per user.
pub struct KeyStore {
    entries: Vec<(i64, TrackerKey)>,
}

/// The map described by a sequence of records, later records taking
/// precedence.
pub open spec fn entries_map(s: Seq<(i64, TrackerKey)>) -> Map<i64, TrackerKey>
    decreases s.len(),
{
    if s.len() == 0 {
        Map::empty()
    } else {
        entries_map(s.drop_last()).insert(s.last().0, s.last().1)
    }
}

/// `entries_map(s)` holds a user exactly when some record carries it.
proof fn lemma_entries_map_contains(s: Seq<(i64, TrackerKey)>, user_id: i64)
    ensures
        entries_map(s).contains_key(user_id) <==> exists|i: int|
            0 <= i < s.len() && #[trigger] s[i].0 == user_id,
    decreases s.len(),
{
    if s.len() > 0 {
        lemma_entries_map_contains(s.drop_last(), user_id);
        if entries_map(s).contains_key(user_id) {
            if s.last().0 != user_id {
                let i = choose|i: int|
                    0 <= i < s.drop_last().len() && #[trigger] s.drop_last()[i].0 == user_id;
                assert(s[i].0 == user_id);
            }
        }
        if exists|i: int| 0 <= i < s.len() && #[trigger] s[i].0 == user_id {
            let i = choose|i: int| 0 <= i < s.len() && #[trigger] s[i].0 == user_id;
            if i < s.len() - 1 {
                assert(s.drop_last()[i].0 == user_id);
            }
        }
    }
}

/// In a sequence of records with pairwise distinct user ids, the map
/// value for a user is the one record that carries it.
proof fn lemma_entries_map_index(s: Seq<(i64, TrackerKey)>, i: int)
    requires
        forall|j: int, k: int|
            0 <= j < k < s.len() ==> (#[trigger] s[j].0) != (#[trigger] s[k].0),
        0 <= i < s.len(),
    ensures
        entries_map(s).contains_key(s[i].0),
        entries_map(s)[s[i].0] == s[i].1,
    decreases s.len(),
{
    lemma_entries_map_contains(s, s[i].0);
    if i < s.len() - 1 {
        assert(s.drop_last()[i] == s[i]);
        lemma_entries_map_index(s.drop_last(), i);
        assert(s.last().0 != s[i].0);
    }
}

impl View for KeyStore {
    type V = Map<i64, TrackerKey>;

    closed spec fn view(&self) -> Map<i64, TrackerKey> {
        entries_map(self.entries@)
    }
}

impl KeyStore {
    /// Well-formed: at most one record per user.
    pub closed spec fn wf(&self) -> bool {
        forall|j: int, k: int|
            0 <= j < k < self.entries@.len() ==> (#[trigger] self.entries@[j].0) != (
            #[trigger] self.entries@[k].0)
    }

    /// An empty store: no user has ever been issued a key.
    pub fn new() -> (r: KeyStore)
        ensures
            r.wf(),
            r@ == Map::<i64, TrackerKey>::empty(),
    {
        KeyStore { entries: Vec::new() }
    }

    /// Fetches the currently valid key for `user_id`, if any: the
    /// user's record, provided the current time is strictly before its
    /// `valid_until`. Expired records are reported as absent, not
    /// removed.
    pub fn get_valid_tracker_key(&self, user_id: i64, now: i64) -> (r: Option<TrackerKey>)
        requires
            self.wf(),
        ensures
            r == store_valid_key(self@, user_id, now as int),
    {
        let n = self.entries.len();
        let mut i: usize = 0;
        while i < n
            invariant
                n == self.entries@.len(),
                0 <= i <= n,
                self.wf(),
                forall|j: int| 0 <= j < i ==> (#[trigger] self.entries@[j].0) != user_id,
            decreases n - i,
        {
            if self.entries[i].0 == user_id {
                proof {
                    lemma_entries_map_index(self.entries@, i as int);
                }
                let k = &self.entries[i].1;
                if k.is_valid_at(now) {
                    return Some(k.clone());
                } else {
                    return None;
                }
            }
            i += 1;
        }
        proof {
            lemma_entries_map_contains(self.entries@, user_id);
        }
        None
    }

    /// Persists a newly issued key for `user_id`, superseding the
    /// user's previous record if one exists and creating the record
    /// otherwise. Records of other users are untouched.
    pub fn issue_tracker_key(&mut self, tracker_key: &TrackerKey, user_id: i64)
        requires
            old(self).wf(),
        ensures
            final(self).wf(),
            final(self)@ == old(self)@.insert(user_id, *tracker_key),
    {
        let n = self.entries.len();
        let mut i: usize = 0;
        while i < n
            invariant
                n == self.entries@.len(),
                0 <= i <= n,
                self.wf(),
                *self == *old(self),
                forall|j: int| 0 <= j < i ==> (#[trigger] self.entries@[j].0) != user_id,
            decreases n - i,
        {
            if self.entries[i].0 == user_id {
                self.entries[i] = (user_id, tracker_key.clone());
                proof {
                    lemma_update_entry(old(self).entries@, self.entries@, i as int);
                }
                return ;
            }
            i += 1;
        }
        self.entries.push((user_id, tracker_key.clone()));
        proof {
            assert(self.entries@.drop_last() =~= old(self).entries@);
            assert(forall|j: int|
                0 <= j < old(self).entries@.len() ==> self.entries@[j] == old(
                    self,
                ).entries@[j]);
        }
    }
}

/// Replacing the one record that carries a user id with a new record
/// for the same user updates the described map at that user alone.
proof fn lemma_update_entry(pre: Seq<(i64, TrackerKey)>, post: Seq<(i64, TrackerKey)>, i: int)
    requires
        forall|j: int, k: int|
            0 <= j < k < pre.len() ==> (#[trigger] pre[j].0) != (#[trigger] pre[k].0),
        0 <= i < pre.len(),
        post.len() == pre.len(),
        post[i].0 == pre[i].0,
        forall|j: int| 0 <= j < pre.len() && j != i ==> post[j] == pre[j],
    ensures
        forall|j: int, k: int|
            0 <= j < k < post.len() ==> (#[trigger] post[j].0) != (#[trigger] post[k].0),
        entries_map(post) == entries_map(pre).insert(pre[i].0, post[i].1),
    decreases pre.len(),
{
    assert forall|j: int, k: int| 0 <= j < k < post.len() implies (#[trigger] post[j].0) != (
    #[trigger] post[k].0) by {
        assert(pre[j].0 != pre[k].0);
    }
    if i == pre.len() - 1 {
        assert(post.drop_last() =~= pre.drop_last());
        assert(entries_map(post) =~= entries_map(pre).insert(pre[i].0, post[i].1));
    } else {
        assert(pre.drop_last()[i] == pre[i]);
        lemma_update_entry(pre.drop_last(), post.drop_last(), i);
        assert(post.last() == pre.last());
        assert(entries_map(post) =~= entries_map(pre).insert(pre[i].0, post[i].1));
    }
}

} // verus!

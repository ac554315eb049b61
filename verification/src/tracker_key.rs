//! The announce credential issued by the tracker.

use vstd::prelude::*;

verus! {

/// An announce credential issued by the tracker for one user: the key
/// text and the moment (seconds since epoch) it stops being valid.
///
/// A key is created only by the tracker's issue operation, persisted
/// immediately after issuance, never mutated, and superseded (not
/// deleted) by a newly issued key once it has expired.
pub struct TrackerKey {
    pub key: String,
    pub valid_until: i64,
}

impl TrackerKey {
    /// A key is valid exactly while the current time is strictly
    /// before `valid_until`.
    pub open spec fn valid_at(self, now: int) -> bool {
        now < self.valid_until
    }

    /// Point-in-time freshness check; expiry is evaluated lazily, on
    /// read — there is no background sweep.
    pub fn is_valid_at(&self, now: i64) -> (r: bool)
        ensures
            r == self.valid_at(now as int),
    {
        now < self.valid_until
    }
}

impl Clone for TrackerKey {
    fn clone(&self) -> (r: Self)
        ensures
            r == *self,
    {
        TrackerKey { key: self.key.clone(), valid_until: self.valid_until }
    }
}

} // verus!

//! Tracker configuration: loaded once at process start, immutable
//! thereafter, and shared read-only by everything that talks to the
//! tracker.

use vstd::prelude::*;

verus! {

/// Connection parameters for the external BitTorrent tracker.
///
/// `url` is the public base URL that announce URLs handed to torrent
/// clients are built from; `api_url` is the administrative API used for
/// server-to-server calls; `token` is the shared administrative secret,
/// carried by every outbound call; `token_valid_seconds` is the TTL
/// requested for newly issued announce keys.
pub struct TrackerConfig {
    pub url: String,
    pub api_url: String,
    pub token: String,
    pub token_valid_seconds: u64,
}

impl Clone for TrackerConfig {
    fn clone(&self) -> (r: Self)
        ensures
            r == *self,
    {
        TrackerConfig {
            url: self.url.clone(),
            api_url: self.api_url.clone(),
            token: self.token.clone(),
            token_valid_seconds: self.token_valid_seconds,
        }
    }
}

} // verus!

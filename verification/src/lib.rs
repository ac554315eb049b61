//! Tracker-integration subsystem of a torrent indexing backend.
//!
//! The library covers credential (announce key) lifecycle management,
//! announce-URL and administrative request construction, info-hash
//! whitelisting, and swarm-statistics retrieval, together with the
//! failure semantics around an unreachable tracker. Network and
//! database transport live outside the library; every decision the
//! subsystem makes is a verified function from plain values to plain
//! values.

pub mod category;
pub mod common;
pub mod config;
pub mod errors;
pub mod response;
pub mod key_store;
pub mod tracker;
pub mod tracker_key;
pub mod wire;

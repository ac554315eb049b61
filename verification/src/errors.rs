//! Error taxonomy of the tracker subsystem.
//!
//! Transport failures, non-success statuses and unparseable bodies are
//! deliberately collapsed into a single tracker-side kind: callers can
//! act on "tracker offline" but not on the distinction between those
//! three, and the distinction is not observable in behaviour.

use vstd::prelude::*;

verus! {

/// A failure surfaced to callers of the tracker service.
#[derive(Clone, Copy, Debug, PartialEq, Eq, Structural)]
pub enum ServiceError {
    /// The tracker's administrative API could not be reached, answered
    /// with a non-success status, or answered with an unparseable body.
    TrackerUnavailable,
    /// The key store could not be read or written; an infrastructure
    /// error, not tracker-specific.
    KeyStoreFailure,
}

impl ServiceError {
    /// A user-presentable description of the failure.
    pub fn message(&self) -> (r: &'static str)
        ensures
            *self == ServiceError::TrackerUnavailable ==> r@ == "tracker unavailable"@,
            *self == ServiceError::KeyStoreFailure ==> r@ == "key store failure"@,
    {
        match self {
            ServiceError::TrackerUnavailable => "tracker unavailable",
            ServiceError::KeyStoreFailure => "key store failure",
        }
    }
}

} // verus!

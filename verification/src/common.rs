//! Application-wide shared state: the immutable configuration and the
//! tracker service, constructed once and handed to every handler.

use crate::config::TrackerConfig;
use crate::tracker::TrackerService;
use std::sync::Arc;
use vstd::prelude::*;

verus! {

pub type Username = String;

/// The collaborators a request handler needs, built once at startup by
/// explicit dependency injection and shared read-only afterwards.
pub struct AppData {
    pub cfg: Arc<TrackerConfig>,
    pub tracker: Arc<TrackerService>,
}

impl AppData {
    pub fn new(cfg: Arc<TrackerConfig>, tracker: Arc<TrackerService>) -> (r: AppData)
        ensures
            r.cfg == cfg,
            r.tracker == tracker,
    {
        AppData { cfg, tracker }
    }
}

} // verus!

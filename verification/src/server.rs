//! What the host knows, and what it tells about itself.

use crate::clock::{rfc3339_text, LocalTime, Timestamp};
use crate::site::{FileView, Site};
use crate::text::optional_text;
use crate::update::{LogRecord, UpdateLog};
use crate::visits::{day_stats, fresh_counter, VisitCounter, VisitStats};
use vstd::prelude::*;

verus! {

/// What the host knows.
pub struct AppState {
    pub files: Site,
    pub last_updated: i64,
    pub update_log: UpdateLog,
    pub api_key: String,
    pub visits: VisitCounter,
}

impl AppState {
    /// A host that has just started: without files, updates or visits.
    pub fn new(api_key: String, now: LocalTime) -> (r: AppState)
        ensures
            r.files@ == Map::<Seq<char>, FileView>::empty(),
            r.last_updated == 0,
            r.update_log@ == Seq::<LogRecord>::empty(),
            r.api_key == api_key,
            r.visits@ == fresh_counter(now),
    {
        AppState {
            files: Site::new(),
            last_updated: 0,
            update_log: UpdateLog::new(),
            api_key,
            visits: VisitCounter::new(now),
        }
    }
}

/// What the host tells about its updates and visits.
pub struct LogReport<'a> {
    pub update_log: &'a UpdateLog,
    pub stats: VisitStats,
    pub last_reset: Option<String>,
}

/// Reports the update log, the visits so far and the time of the last reset.
pub fn get_update_log<'a>(log: &'a UpdateLog, visits: &VisitCounter) -> (r: LogReport<'a>)
    ensures
        r.update_log@ == log@,
        r.stats@ == day_stats(visits@),
        r.stats.index_visits <= r.stats.total_visits,
        optional_text(r.last_reset) == rfc3339_text(
            visits@.last_reset.secs as int,
            visits@.last_reset.nanos as int,
            visits@.last_reset.offset as int,
        ),
{
    LogReport { update_log: log, stats: visits.stats(), last_reset: visits.last_reset().to_rfc3339() }
}

/// What the host tells about its health.
pub struct Health {
    pub status: String,
    pub timestamp: Option<String>,
}

/// Reports that the host is up, and the time.
pub fn health_check(now: Timestamp) -> (r: Health)
    ensures
        r.status@ == "healthy"@,
        optional_text(r.timestamp) == rfc3339_text(now.secs as int, now.nanos as int, 0),
{
    Health { status: "healthy".to_string(), timestamp: now.to_rfc3339() }
}

} // verus!

use crate::models::Config;
use vstd::prelude::*;

verus! {

/// Seconds between two cleanup sweeps.
pub const CLEANUP_INTERVAL_SECS: i64 = 86_400;

/// The scheduler's timing state: the batch period and when the last cleanup
/// sweep ran. Batches run once at start and then once per period; after each
/// scheduled batch the sweep runs if a full cleanup interval has passed.
pub struct SchedulePolicy {
    /// Seconds to wait between two batches.
    pub scrape_interval_secs: u64,
    /// Seconds since the Unix epoch of the last sweep (initially the start time).
    pub last_cleanup: i64,
    /// When the last batch started, once one has.
    pub last_scrape: Option<i64>,
}

/// Whether a sweep is due at `now` after the last one at `last`.
pub open spec fn sweep_due(last: i64, now: i64) -> bool {
    now - last >= CLEANUP_INTERVAL_SECS
}

impl SchedulePolicy {
    /// The policy for a scheduler started at `start`: the period is the
    /// configured interval in minutes (clamped to the range of `u64`).
    pub fn new(config: &Config, start: i64) -> (r: SchedulePolicy)
        ensures
            config.scraping.default_interval * 60 <= u64::MAX ==> r.scrape_interval_secs
                == config.scraping.default_interval * 60,
            config.scraping.default_interval * 60 > u64::MAX ==> r.scrape_interval_secs == u64::MAX,
            r.last_cleanup == start,
            r.last_scrape is None,
    {
        let minutes = config.scraping.default_interval;
        let secs = if minutes <= u64::MAX / 60 {
            minutes * 60
        } else {
            u64::MAX
        };
        SchedulePolicy { scrape_interval_secs: secs, last_cleanup: start, last_scrape: None }
    }

    /// Notes that a batch starts at `now`.
    pub fn record_scrape(&mut self, now: i64)
        ensures
            final(self).last_scrape == Some(now),
            final(self).last_cleanup == old(self).last_cleanup,
            final(self).scrape_interval_secs == old(self).scrape_interval_secs,
    {
        self.last_scrape = Some(now);
    }

    /// Whether the cleanup sweep is due at `now`.
    pub fn cleanup_due(&self, now: i64) -> (r: bool)
        ensures
            r == sweep_due(self.last_cleanup, now),
    {
        if self.last_cleanup <= i64::MAX - CLEANUP_INTERVAL_SECS {
            now >= self.last_cleanup + CLEANUP_INTERVAL_SECS
        } else {
            false
        }
    }

    /// Called after a scheduled batch finished at `now`: tells whether to run
    /// the sweep, and if so records `now` as the time of the last sweep.
    pub fn after_batch(&mut self, now: i64) -> (r: bool)
        ensures
            r == sweep_due(old(self).last_cleanup, now),
            final(self).last_cleanup == if r { now } else { old(self).last_cleanup },
            final(self).scrape_interval_secs == old(self).scrape_interval_secs,
            final(self).last_scrape == old(self).last_scrape,
    {
        let due = self.cleanup_due(now);
        if due {
            self.last_cleanup = now;
        }
        due
    }
}

} // verus!

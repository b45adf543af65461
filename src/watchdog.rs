use vstd::prelude::*;

use crate::clock::{elapsed_ms, elapsed_since};
use crate::diagnostic::Diagnostic;

verus! {

/// Consecutive misses at which the safety alert starts to fire.
pub const ALERT_AFTER_MISSES: u64 = 3;

/// An inspection at `now` is a miss when no critical sample was ever
/// recorded, or the last one is older than `threshold_ms`.
pub open spec fn is_miss(threshold_ms: u64, now: u64, last_critical_time: Option<u64>) -> bool {
    match last_critical_time {
        None => true,
        Some(t) => elapsed_since(now, t) > threshold_ms,
    }
}

/// The miss counter after one inspection: one more on a miss (held at the
/// largest `u64`), back to zero otherwise.
pub open spec fn next_missed(count: u64, miss: bool) -> u64 {
    if !miss {
        0
    } else if count < u64::MAX {
        (count + 1) as u64
    } else {
        count
    }
}

/// Whether an inspection with this outcome, on a counter at `count`, raises
/// the safety alert.
pub open spec fn alert_fires(count: u64, miss: bool) -> bool {
    miss && next_missed(count, miss) >= ALERT_AFTER_MISSES
}

/// The miss counter after a run of inspections with outcomes `misses`.
pub open spec fn count_after(count: u64, misses: Seq<bool>) -> u64
    decreases misses.len(),
{
    if misses.len() == 0 {
        count
    } else {
        next_missed(count_after(count, misses.drop_last()), misses.last())
    }
}

/// Length of the run of misses that ends `misses`.
pub open spec fn trailing_misses(misses: Seq<bool>) -> nat
    decreases misses.len(),
{
    if misses.len() == 0 {
        0
    } else if misses.last() {
        trailing_misses(misses.drop_last()) + 1
    } else {
        0
    }
}

/// Read-only observer of the critical sensor's freshness.
pub struct StalenessWatchdog {
    pub threshold_ms: u64,
    pub missed_count: u64,
}

impl StalenessWatchdog {
    /// A watchdog with no misses counted yet.
    pub fn new(threshold_ms: u64) -> (r: StalenessWatchdog)
        ensures
            r.threshold_ms == threshold_ms,
            r.missed_count == 0,
    {
        StalenessWatchdog { threshold_ms, missed_count: 0 }
    }

    /// One inspection at `now` of the buffer's last critical time: counts a
    /// miss or resets the counter, and raises the safety alert from the third
    /// consecutive miss on.
    pub fn inspect(&mut self, now: u64, last_critical_time: Option<u64>) -> (r: Option<Diagnostic>)
        ensures
            final(self).threshold_ms == old(self).threshold_ms,
            final(self).missed_count == next_missed(
                old(self).missed_count,
                is_miss(old(self).threshold_ms, now, last_critical_time),
            ),
            r == (if alert_fires(
                old(self).missed_count,
                is_miss(old(self).threshold_ms, now, last_critical_time),
            ) {
                Some(Diagnostic::SafetyAlert { missed: final(self).missed_count })
            } else {
                None
            }),
    {
        let miss = match last_critical_time {
            None => true,
            Some(t) => elapsed_ms(now, t) > self.threshold_ms,
        };
        if !miss {
            self.missed_count = 0;
            None
        } else {
            self.missed_count = self.missed_count.saturating_add(1);
            if self.missed_count >= ALERT_AFTER_MISSES {
                Some(Diagnostic::SafetyAlert { missed: self.missed_count })
            } else {
                None
            }
        }
    }
}

/// From a reset counter, the counter always equals the length of the current
/// run of consecutive misses (held at the largest `u64`).
pub proof fn lemma_counter_tracks_run(misses: Seq<bool>)
    ensures
        count_after(0, misses) == (if trailing_misses(misses) <= u64::MAX {
            trailing_misses(misses)
        } else {
            u64::MAX as nat
        }),
    decreases misses.len(),
{
    if misses.len() > 0 {
        lemma_counter_tracks_run(misses.drop_last());
    }
}

/// Staleness alert: starting from a reset counter, an inspection raises the
/// alert exactly when it is a miss that completes a run of at least three
/// consecutive misses. So the alert fires on the third consecutive miss and
/// on each later one, and a fresh sample before the third resets the count
/// so that no alert fires.
pub proof fn lemma_alert_on_third_consecutive_miss(earlier: Seq<bool>, miss: bool)
    ensures
        alert_fires(count_after(0, earlier), miss) <==> (miss && trailing_misses(earlier.push(miss))
            >= ALERT_AFTER_MISSES),
{
    lemma_counter_tracks_run(earlier);
    assert(earlier.push(miss).drop_last() =~= earlier);
}

} // verus!

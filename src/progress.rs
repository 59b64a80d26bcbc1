//! Throttling of progress reports so that long operations emit a bounded
//! number of events.

use vstd::prelude::*;

verus! {

/// Entries between two reports when walking `total` entries: about one
/// report per five percent, and at least one entry.
pub open spec fn step_for(total: nat) -> nat {
    if total <= 20 {
        1
    } else {
        ((total + 19) / 20) as nat
    }
}

/// The number of entries between two reports for a walk of `total` entries.
pub fn progress_step(total: u64) -> (r: u64)
    ensures
        r == step_for(total as nat),
        r >= 1,
{
    if total <= 20 {
        1
    } else {
        let q = total / 20;
        if total % 20 == 0 {
            q
        } else {
            q + 1
        }
    }
}

/// Whether entry `index` of a walk of `total` entries is reported.
pub fn report_due(index: u64, total: u64) -> (r: bool)
    ensures
        r == (index as nat % step_for(total as nat) == 0),
{
    index % progress_step(total) == 0
}

/// Whole percent of `current` out of `total`, capped at 100; 0 when the
/// total is unknown (zero).
pub open spec fn percent(current: nat, total: nat) -> nat {
    if total == 0 {
        0
    } else if current >= total {
        100
    } else {
        (current * 100 / total) as nat
    }
}

/// Coalesces transfer progress to one report per whole percent.
pub struct DownloadThrottle {
    pub last_percent: u64,
}

impl DownloadThrottle {
    /// A throttle that has reported nothing yet.
    pub fn new() -> (r: DownloadThrottle)
        ensures
            r.last_percent == 0,
    {
        DownloadThrottle { last_percent: 0 }
    }

    /// Observes `current` bytes out of `total` and says whether to report:
    /// when the whole percent has moved since the last report, or the
    /// transfer is complete.
    pub fn observe(&mut self, current: u64, total: u64) -> (r: bool)
        ensures
            r == (percent(current as nat, total as nat) != old(self).last_percent
                || percent(current as nat, total as nat) == 100),
            r ==> final(self).last_percent == percent(current as nat, total as nat),
            !r ==> final(self).last_percent == old(self).last_percent,
    {
        let pct: u64 = if total == 0 {
            0
        } else if current >= total {
            100
        } else {
            let ghost c = current as int;
            let ghost t = total as int;
            assert((c * 100) / t < 100) by (nonlinear_arith)
                requires c < t, t > 0;
            ((current as u128 * 100) / total as u128) as u64
        };
        let due = pct != self.last_percent || pct == 100;
        if due {
            self.last_percent = pct;
        }
        due
    }
}

} // verus!

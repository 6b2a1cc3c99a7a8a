//! Throttling of the expired-record purge: it runs at most once per interval.

use vstd::prelude::*;
use crate::store_rate_limit::{i64_saturating_sub, saturating_sub_i64};

verus! {

/// Seconds between purges.
pub const DEFAULT_PURGE_INTERVAL_SECS: i64 = 60;

/// A purge is due when at least `interval_secs` have passed since the last
/// one (the difference saturating at the `i64` range).
pub open spec fn purge_is_due(now: i64, last_purge: i64, interval_secs: i64) -> bool {
    saturating_sub_i64(now, last_purge) >= interval_secs
}

pub fn purge_due(now: i64, last_purge: i64, interval_secs: i64) -> (due: bool)
    ensures
        due == purge_is_due(now, last_purge, interval_secs),
{
    i64_saturating_sub(now, last_purge) >= interval_secs
}

} // verus!

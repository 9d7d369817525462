//! Freshness policy for a dataset kind's bulk cache.
//!
//! Each dataset kind keeps one marker: the Unix timestamp (whole
//! seconds) of its last successful full refresh. The cache may be
//! trusted exactly when such a marker exists and lies at most one day
//! in the past; everything else counts as stale.

use vstd::prelude::*;

verus! {

/// How long a marker keeps the bulk cache trustworthy, in seconds.
pub const FRESHNESS_WINDOW_SECS: i64 = 86400;

/// A dataset is stale when it has no usable marker, or when strictly
/// more than one day passed between the marker and `now`.
pub open spec fn spec_is_stale(marker: Option<i64>, now: i64) -> bool {
    match marker {
        Option::None => true,
        Option::Some(t) => now - t > FRESHNESS_WINDOW_SECS as int,
    }
}

/// Decides whether the bulk cache behind `marker` must be refreshed
/// before it is read. `marker` is `None` when the marker file is
/// absent or unparseable; `now` is the current Unix time.
pub fn is_stale(marker: Option<i64>, now: i64) -> (r: bool)
    ensures
        r == spec_is_stale(marker, now),
{
    match marker {
        None => true,
        Some(t) => (now as i128) - (t as i128) > FRESHNESS_WINDOW_SECS as i128,
    }
}

} // verus!

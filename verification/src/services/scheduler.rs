//! The schedule of background price updates.
use vstd::prelude::*;

verus! {

/// The period between price updates, in seconds, for a period given in
/// minutes.
pub fn interval_seconds(interval_minutes: u64) -> (s: u64)
    requires
        interval_minutes * 60 <= u64::MAX,
    ensures
        s == interval_minutes * 60,
{
    interval_minutes * 60
}

} // verus!

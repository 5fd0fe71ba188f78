//! Times of the cluster's clock as the markets count them.
use vstd::prelude::*;

verus! {

/// The clock's unix timestamp in milliseconds, the unit of a market's times.
pub open spec fn millis(unix_timestamp: i64) -> int {
    unix_timestamp * 1000
}

/// The milliseconds of `unix_timestamp` fit in an `i64`.
pub open spec fn millis_fit(unix_timestamp: i64) -> bool {
    i64::MIN <= millis(unix_timestamp) <= i64::MAX
}

/// Computes the clock's unix timestamp in milliseconds.
pub fn to_millis(unix_timestamp: i64) -> (r: i64)
    requires
        millis_fit(unix_timestamp),
    ensures
        r == millis(unix_timestamp),
{
    unix_timestamp * 1000
}

/// Whether the milliseconds of `unix_timestamp` fit in an `i64`.
pub fn fits_in_millis(unix_timestamp: i64) -> (r: bool)
    ensures
        r == millis_fit(unix_timestamp),
{
    unix_timestamp.checked_mul(1000).is_some()
}

} // verus!

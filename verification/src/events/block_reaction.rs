//! Removing reactions from messages older than the configured number of days.
use vstd::prelude::*;

verus! {

/// The number of seconds in a day.
pub const SECS_PER_DAY: i64 = 86400;

/// The largest number of whole seconds a time span can hold (`i64::MAX` milliseconds).
pub const MAX_SPAN_SECS: i64 = 9223372036854775;

/// `TimeDelta::days(days)` exists: the span fits.
pub open spec fn days_span_fits(days: i64) -> bool {
    -MAX_SPAN_SECS <= days * SECS_PER_DAY <= MAX_SPAN_SECS
}

/// Whether a message whose age is `age_seconds` seconds and
/// `age_subsec_nanos` nanoseconds (both with the sign of the age, as
/// `TimeDelta::num_seconds` and `subsec_nanos` give them) is at least
/// `days` days old.
pub fn is_old(age_seconds: i64, age_subsec_nanos: i32, days: i64) -> (r: bool)
    requires
        days_span_fits(days),
        -1_000_000_000 < age_subsec_nanos < 1_000_000_000,
    ensures
        r == (age_seconds as int * 1_000_000_000 + age_subsec_nanos as int >= days as int * SECS_PER_DAY
            * 1_000_000_000),
{
    let limit = days * SECS_PER_DAY;
    if age_seconds > limit {
        true
    } else if age_seconds < limit {
        false
    } else {
        age_subsec_nanos >= 0
    }
}

/// Whether the configured number of days is one a time span can hold.
pub fn days_fit(days: i64) -> (r: bool)
    ensures
        r == days_span_fits(days),
{
    let max_days = MAX_SPAN_SECS / SECS_PER_DAY;
    -max_days <= days && days <= max_days
}

} // verus!

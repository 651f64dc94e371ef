//! Time as the engine sees it: whole seconds since the Unix epoch.

use vstd::prelude::*;

verus! {

/// A point in time, in whole seconds since the Unix epoch.
pub type Timestamp = u64;

/// Seconds in one day.
pub const SECONDS_PER_DAY: u64 = 86_400;

/// `time::Duration::days` followed by `Duration::whole_seconds`: the length
/// in seconds of a span of `days` days.
///
/// Trusted: `Duration::days` multiplies by 86 400 with a checked
/// multiplication and panics when the product leaves `i64`, which the
/// precondition rules out; `whole_seconds` hands the product back.
#[verifier::external_body]
fn whole_seconds_in_days(days: i64) -> (secs: i64)
    requires
        i64::MIN <= days * 86_400 <= i64::MAX,
    ensures
        secs == days * 86_400,
{
    time::Duration::days(days).whole_seconds()
}

/// The inactivity window, in seconds, of a policy that lets a session idle
/// for `days` days.
pub fn inactivity_window(days: u32) -> (secs: u64)
    ensures
        secs == days * SECONDS_PER_DAY,
{
    let wide: i64 = days as i64;
    let secs: i64 = whole_seconds_in_days(wide);
    secs as u64
}

} // verus!

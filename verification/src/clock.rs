//! Points in time.

use vstd::prelude::*;

verus! {

/// A point in time: milliseconds since the Unix epoch, in UTC.
pub type Timestamp = i64;

/// Calls `chrono::Utc::now` and hands the time out in milliseconds.
///
/// Trusted: the result depends on the system clock, so nothing is claimed of
/// it but that it does not lie before the epoch (`now` panics where the clock
/// does).
#[verifier::external_body]
pub(crate) fn now_utc() -> (t: Timestamp)
    ensures
        0 <= t,
{
    chrono::Utc::now().timestamp_millis()
}

} // verus!

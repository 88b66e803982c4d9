//! The wall clock and fresh identifiers: the two things the scheduler takes
//! from outside and can promise nothing about.

use vstd::prelude::*;

verus! {

/// Seconds since the Unix epoch, from `chrono::Utc::now().timestamp()`.
/// Nothing is claimed of the value: two reads may differ in any way.
#[verifier::external_body]
pub(crate) fn now_secs() -> i64 {
    chrono::Utc::now().timestamp()
}

/// A random identifier, from `uuid::Uuid::new_v4()`, in its hyphenated
/// text form. Nothing is claimed of the value.
#[verifier::external_body]
pub(crate) fn fresh_id() -> String {
    uuid::Uuid::new_v4().to_string()
}

/// The whole seconds from `start` to `end`, cut to the range of `i64`.
pub open spec fn spec_elapsed(start: i64, end: i64) -> int {
    let d = end - start;
    if d > i64::MAX {
        i64::MAX as int
    } else if d < i64::MIN {
        i64::MIN as int
    } else {
        d
    }
}

/// The whole seconds from `start` to `end`, cut to the range of `i64`.
pub fn elapsed(start: i64, end: i64) -> (d: i64)
    ensures
        d == spec_elapsed(start, end),
{
    let wide: i128 = end as i128 - start as i128;
    if wide > i64::MAX as i128 {
        i64::MAX
    } else if wide < i64::MIN as i128 {
        i64::MIN
    } else {
        wide as i64
    }
}

/// Whether more than `limit` seconds lie between `since` and `now`.
pub open spec fn spec_older_than(since: i64, now: i64, limit: int) -> bool {
    now - since > limit
}

/// Whether more than `limit` seconds lie between `since` and `now`.
pub fn older_than(since: i64, now: i64, limit: i64) -> (r: bool)
    ensures
        r == spec_older_than(since, now, limit as int),
{
    now as i128 - since as i128 > limit as i128
}

} // verus!

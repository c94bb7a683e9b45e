//! The wall clock and spans of time, which are `std`'s. The wrappers here
//! are taken on trust.

use std::time::{Duration, SystemTime, UNIX_EPOCH};
use vstd::prelude::*;

verus! {

/// The whole milliseconds of a span of time.
pub uninterp spec fn duration_millis(span: Duration) -> nat;

/// `Duration::from_millis`: a span of that many milliseconds.
#[verifier::external_body]
pub(crate) fn of_millis(millis: u64) -> (span: Duration)
    ensures
        duration_millis(span) == millis,
{
    Duration::from_millis(millis)
}

/// `SystemTime::now` and `SystemTime::duration_since`: the milliseconds
/// since the Unix epoch, or nothing where the clock is before it or the
/// milliseconds are beyond 64 bits. Nothing is promised of the result.
#[verifier::external_body]
pub(crate) fn unix_millis() -> Option<u64> {
    match SystemTime::now().duration_since(UNIX_EPOCH) {
        Ok(span) => u64::try_from(span.as_millis()).ok(),
        Err(_) => None,
    }
}

} // verus!

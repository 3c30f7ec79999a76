//! Reading the monotonic clock.

use vstd::prelude::*;

verus! {

#[verifier::external_type_specification]
#[verifier::external_body]
pub struct ExInstant(std::time::Instant);

/// Relies on `Instant`'s `Clone`, which it derives beside `Copy`: the clone is
/// the same instant.
pub assume_specification[ <std::time::Instant as Clone>::clone ](i: &std::time::Instant) -> (r: std::time::Instant)
    ensures
        r == *i,
;

/// Relies on `std::time::Instant::now`: reads the monotonic clock. Nothing is
/// promised of the value.
#[verifier::external_body]
pub(crate) fn now() -> (r: std::time::Instant) {
    std::time::Instant::now()
}

/// Relies on `std::time::Instant::saturating_duration_since` (then `as_nanos`):
/// the whole nanoseconds from `earlier` to `later`, zero when `later` comes
/// first. Nothing more is promised, as the two values are opaque here.
#[verifier::external_body]
pub(crate) fn nanos_between(later: &std::time::Instant, earlier: &std::time::Instant) -> (r: u128) {
    later.saturating_duration_since(*earlier).as_nanos()
}

} // verus!

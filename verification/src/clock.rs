//! Readings of the monotonic clock.
use std::time::Instant;
use vstd::prelude::*;

verus! {

/// A reading of the monotonic clock (`std::time::Instant`).
#[verifier::external_type_specification]
#[verifier::external_body]
pub struct ExInstant(Instant);

/// The current reading of the monotonic clock (`Instant::now`). Nothing is stated of it.
#[verifier::external_body]
pub(crate) fn instant_now() -> Instant {
    Instant::now()
}

/// Nanoseconds elapsed since `since` (`Instant::elapsed`). The value depends on the
/// time of the call: nothing is stated of it.
#[verifier::external_body]
pub(crate) fn instant_elapsed_nanos(since: &Instant) -> u128 {
    since.elapsed().as_nanos()
}

/// Whole seconds from `earlier` to `later` (`Instant::duration_since`, which gives
/// zero when `earlier` is the later reading). Nothing is stated of the value: the
/// two readings are opaque.
#[verifier::external_body]
pub(crate) fn seconds_between(later: &Instant, earlier: &Instant) -> u64 {
    later.duration_since(*earlier).as_secs()
}

} // verus!

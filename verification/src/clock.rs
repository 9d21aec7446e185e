//! The machine's clocks: the monotonic one, read as nanoseconds from a
//! starting moment, and the calendar's.

use chrono::Utc;
use std::time::Instant;
use vstd::prelude::*;

verus! {

#[verifier::external_type_specification]
#[verifier::external_body]
pub struct ExInstant(Instant);

/// The moment of the call, from `Instant::now`. Nothing is claimed of it.
#[verifier::external_body]
pub(crate) fn start() -> Instant {
    Instant::now()
}

/// The nanoseconds that have passed since `origin`, from `Instant::elapsed`.
/// Nothing is claimed of the number: it depends on when the call is made.
#[verifier::external_body]
pub(crate) fn nanos_since(origin: &Instant) -> u128 {
    origin.elapsed().as_nanos()
}

/// The moment of the call by the calendar, from chrono's `Utc::now`: the
/// seconds since the start of 1970 and the nanoseconds of the running
/// second. Nothing is claimed of them. The call fails only where the
/// system's clock stands before 1970.
#[verifier::external_body]
pub(crate) fn unix_now() -> (i64, u32) {
    let now = Utc::now();
    (now.timestamp(), now.timestamp_subsec_nanos())
}

} // verus!

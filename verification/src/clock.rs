//! The clock that durations are read from.

use vstd::prelude::*;

verus! {

/// `std::time::Instant`, a reading of the monotonic clock. Nothing inside it is seen from
/// here.
#[verifier::external_type_specification]
#[verifier::external_body]
pub struct ExInstant(std::time::Instant);

/// `std::time::Instant::now` reads the monotonic clock. What it returns depends on when it
/// is called, so nothing is claimed of it.
pub assume_specification[ std::time::Instant::now ]() -> (now: std::time::Instant);

/// `std::time::Instant::elapsed` returns the time that has passed since the instant was
/// read. That depends on when it is called, so nothing is claimed of it.
pub assume_specification[ std::time::Instant::elapsed ](start: &std::time::Instant) -> (elapsed:
    core::time::Duration);

/// `core::time::Duration::as_millis` returns the whole milliseconds in a duration. A
/// duration is opaque here and only ever comes from the clock, so nothing is claimed of
/// the number.
pub assume_specification[ core::time::Duration::as_millis ](duration: &core::time::Duration) -> (millis:
    u128);

} // verus!

//! The wall clock, as far as the machine needs it.
//!
//! `Instant` and the three functions below are std's. Nothing is known of
//! what they return beyond the types: the time that a call reads is whatever
//! the clock holds.

use std::time::Duration;
use std::time::Instant;
use vstd::prelude::*;

verus! {

/// `std::time::Instant`, a reading of the monotonic clock. Opaque: nothing
/// is stated of what a reading holds.
#[verifier::external_type_specification]
#[verifier::external_body]
pub struct ExInstant(Instant);

/// `Instant::now` reads the clock. No claim is made of the reading.
pub assume_specification[ Instant::now ]() -> (now: Instant);

/// `Instant::saturating_duration_since` gives the time from `earlier` to
/// `later`, or zero if `earlier` is the later one; it never panics. No claim
/// is made of the length that comes back.
pub assume_specification[ Instant::saturating_duration_since ](
    later: &Instant,
    earlier: Instant,
) -> (passed: Duration);

/// `Duration::as_micros` gives the whole microseconds of a duration. No
/// claim is made of the number.
pub assume_specification[ Duration::as_micros ](duration: &Duration) -> (micros: u128);

} // verus!

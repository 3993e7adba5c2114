//! Readings of the monotonic clock, as nanoseconds.
use vstd::prelude::*;
use std::time::{Duration, Instant};

verus! {

/// `std::time::Instant`, carried through opaquely.
#[verifier::external_type_specification]
#[verifier::external_body]
pub struct ExInstant(Instant);

/// `Instant::now`: the current reading of the monotonic clock. Nothing is
/// promised of the value.
#[verifier::external_body]
pub(crate) fn instant_now() -> Instant {
    Instant::now()
}

/// `Instant::elapsed`: the time since `origin`. Nothing is promised of the
/// value, which depends on the clock.
#[verifier::external_body]
pub(crate) fn elapsed_since(origin: &Instant) -> Duration {
    origin.elapsed()
}

/// `Duration::as_nanos`: the whole nanoseconds of `d`. `Duration` is opaque
/// here, so the number is not related to `d` by any clause.
#[verifier::external_body]
pub(crate) fn duration_as_nanos(d: &Duration) -> u128 {
    d.as_nanos()
}

/// Nanoseconds since `origin`, as the clock reads them now.
pub(crate) fn nanos_since(origin: &Instant) -> u128 {
    let d = elapsed_since(origin);
    duration_as_nanos(&d)
}

} // verus!

//! Reading the monotonic clock as a plain count of nanoseconds since a process epoch, so
//! that instants can be stored in integers and compared across threads.
use std::time::{Duration, Instant};
use vstd::prelude::*;

verus! {

/// `std::time::Instant`, carried through as an opaque value.
#[verifier::external_type_specification]
#[verifier::external_body]
pub struct ExInstant(Instant);

/// Calls `std::time::Instant::elapsed` on `epoch`. The result depends on the system
/// clock at the time of the call, so no clause is stated of it.
#[verifier::external_body]
fn instant_elapsed(epoch: &Instant) -> Duration {
    epoch.elapsed()
}

/// Calls `std::time::Duration::as_nanos`: the whole nanoseconds in `span`. The value is
/// opaque to Verus (a `Duration` has no view here), so no clause is stated of it.
#[verifier::external_body]
fn duration_as_nanos(span: &Duration) -> u128 {
    span.as_nanos()
}

/// The lower 64 bits of a count of nanoseconds, as an `as u64` conversion gives them.
pub fn nanos_as_u64(elapsed: u128) -> (nanos: u64)
    ensures
        nanos == elapsed as u64,
{
    #[verifier::truncate]
    (elapsed as u64)
}

/// Nanoseconds elapsed since `epoch`, truncated to 64 bits (the lower 64 bits of the
/// count, as an `as u64` conversion gives them).
pub fn now_nanos(epoch: &Instant) -> u64 {
    let elapsed = instant_elapsed(epoch);
    let nanos = duration_as_nanos(&elapsed);
    nanos_as_u64(nanos)
}

} // verus!

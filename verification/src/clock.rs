//! The two clocks the tracker reads: the monotonic clock that times a
//! running session, and the wall clock that dates it.

use vstd::prelude::*;

verus! {

/// `std::time::Instant`, a reading of the monotonic clock.
#[verifier::external_type_specification]
#[verifier::external_body]
pub struct ExInstant(std::time::Instant);

/// `Instant::now` of std: the monotonic clock's current reading. Nothing is
/// stated of the value, which depends on the time of the call.
#[verifier::external_body]
pub(crate) fn instant_now() -> (t: std::time::Instant) {
    std::time::Instant::now()
}

/// `Instant::elapsed` of std, in whole seconds: the time passed since
/// `start`. Nothing is stated of the value, which depends on the time of
/// the call.
#[verifier::external_body]
pub(crate) fn elapsed_secs(start: &std::time::Instant) -> (secs: u64) {
    start.elapsed().as_secs()
}

/// `SystemTime::now` of std, as whole seconds since the Unix epoch, or
/// `None` when the wall clock reads a time before the epoch. Nothing more
/// is stated of the value, which depends on the time of the call.
#[verifier::external_body]
pub(crate) fn unix_time_secs() -> (secs: Option<u64>) {
    match std::time::SystemTime::now().duration_since(std::time::UNIX_EPOCH) {
        Ok(d) => Some(d.as_secs()),
        Err(_) => None,
    }
}

} // verus!

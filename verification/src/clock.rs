//! The monotonic clock.

use vstd::prelude::*;

verus! {

/// [`std::time::Instant`]: a reading of the monotonic clock.
#[verifier::external_type_specification]
#[verifier::external_body]
pub struct ExInstant(std::time::Instant);

/// Calls [`std::time::Instant::now`]. Nothing is claimed of the reading, which
/// depends on the time of the call.
#[verifier::external_body]
pub(crate) fn now() -> (reading: std::time::Instant) {
    std::time::Instant::now()
}

/// Calls [`std::time::Instant::elapsed`] and gives the duration in whole
/// milliseconds. Nothing is claimed of the number, which depends on the time of
/// the call.
#[verifier::external_body]
fn elapsed_millis(since: &std::time::Instant) -> (millis: u128) {
    since.elapsed().as_millis()
}

/// How long it has been since a reading of the clock. Only [`elapsed`] makes one.
#[derive(Debug)]
pub struct Elapsed {
    since: std::time::Instant,
    millis: u128,
}

impl Elapsed {
    /// The reading that the time is measured from.
    pub closed spec fn since(&self) -> std::time::Instant {
        self.since
    }

    /// The time that has passed, in milliseconds.
    pub closed spec fn length(&self) -> nat {
        self.millis as nat
    }

    /// The time that has passed, in milliseconds.
    #[must_use]
    pub fn millis(&self) -> (millis: u128)
        ensures
            millis == self.length(),
    {
        self.millis
    }
}

/// How long it has been since this reading of the clock.
pub(crate) fn elapsed(since: std::time::Instant) -> (elapsed: Elapsed)
    ensures
        elapsed.since() == since,
{
    Elapsed { since, millis: elapsed_millis(&since) }
}

/// An optional time in milliseconds; none is no time at all.
pub open spec fn length_of(elapsed: Option<Elapsed>) -> nat {
    match elapsed {
        Some(elapsed) => elapsed.length(),
        None => 0,
    }
}

} // verus!

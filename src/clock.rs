//! The clock: microseconds and milliseconds since the simulator started,
//! never going backward.
use vstd::prelude::*;
use std::time::{Duration, Instant};

verus! {

#[verifier::external_type_specification]
#[verifier::external_body]
pub struct ExInstant(Instant);

/// Relies on `Instant::now`: the current instant of the monotonic clock.
#[verifier::external_body]
fn now() -> Instant {
    Instant::now()
}

/// Relies on `Instant::elapsed`: the time since `epoch`. Nothing is stated
/// of its value, which depends on the time.
#[verifier::external_body]
fn elapsed(epoch: &Instant) -> Duration {
    epoch.elapsed()
}

/// Relies on `Duration::as_micros`: the whole microseconds of a duration.
/// The duration is opaque here, so nothing is stated of the number.
pub assume_specification[ Duration::as_micros ](d: &Duration) -> u128;

/// The reading that follows `latest` when the clock shows `sample`
/// microseconds: the sample, capped at `u64::MAX`, but never less than the
/// reading before.
pub open spec fn next_reading_spec(latest: u64, sample: u128) -> u64 {
    let capped: u64 = if sample > u64::MAX as u128 { u64::MAX } else { sample as u64 };
    if capped < latest { latest } else { capped }
}

/// Milliseconds are whole thousands of microseconds, truncated.
pub open spec fn millis_of(micros: u64) -> u64 {
    micros / 1000
}

/// Computes the reading that follows `latest` for a clock sample.
pub fn next_reading(latest: u64, sample: u128) -> (r: u64)
    ensures
        r == next_reading_spec(latest, sample),
{
    let capped: u64 = if sample > u64::MAX as u128 { u64::MAX } else { sample as u64 };
    if capped < latest { latest } else { capped }
}

/// A clock anchored at the moment it was made. Its view is the last reading
/// it gave, in microseconds.
pub struct Clock {
    epoch: Instant,
    latest: u64,
}

impl View for Clock {
    type V = u64;

    closed spec fn view(&self) -> u64 {
        self.latest
    }
}

impl Clock {
    /// Starts the clock now.
    pub fn new() -> (c: Clock)
        ensures
            c@ == 0,
    {
        Clock { epoch: now(), latest: 0 }
    }

    /// Microseconds since the clock started. A reading is never less than
    /// the one before it.
    pub fn micros(&mut self) -> (r: u64)
        ensures
            r >= old(self)@,
            final(self)@ == r,
    {
        let sample = elapsed(&self.epoch).as_micros();
        let r = next_reading(self.latest, sample);
        self.latest = r;
        r
    }

    /// Milliseconds since the clock started: the microsecond reading taken
    /// by this call, divided by a thousand and truncated.
    pub fn millis(&mut self) -> (r: u64)
        ensures
            final(self)@ >= old(self)@,
            r == millis_of(final(self)@),
    {
        self.micros() / 1000
    }
}

/// Millisecond readings follow microsecond readings: a later microsecond
/// reading never gives fewer milliseconds, so successive `millis` calls
/// never go backward.
pub proof fn millis_never_go_backward(earlier: u64, later: u64)
    requires
        earlier <= later,
    ensures
        millis_of(earlier) <= millis_of(later),
{
}

} // verus!

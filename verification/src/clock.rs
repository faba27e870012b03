//! Time as the controller counts it: whole nanoseconds, called ticks, since
//! the controller's clock was started.

use vstd::prelude::*;
use std::time::Duration;
use tokio::time::Instant;

verus! {

/// `tokio::time::Instant`, a reading of the runtime's clock. Verus carries
/// such a value without looking into it.
#[verifier::external_type_specification]
#[verifier::external_body]
pub struct ExInstant(tokio::time::Instant);

/// The whole number of nanoseconds that a `Duration` spans: what
/// `Duration::as_nanos` returns for it.
pub uninterp spec fn duration_nanos(d: Duration) -> u128;

/// Calls `tokio::time::Instant::now`, the current reading of the runtime's
/// clock. Believed without proof: that the call returns without unwinding.
/// Nothing is claimed of the reading.
#[verifier::external_body]
fn instant_now() -> (t: Instant)
    opens_invariants none
    no_unwind
{
    Instant::now()
}

/// Calls `tokio::time::Instant::elapsed`, the time that has passed since
/// `since` was read, which is zero where the clock now reads less. Believed
/// without proof: that the call returns without unwinding. Nothing is
/// claimed of the result.
#[verifier::external_body]
fn instant_elapsed(since: &Instant) -> (d: Duration)
    opens_invariants none
    no_unwind
{
    since.elapsed()
}

/// Calls `Duration::as_nanos`. Believed without proof: that the result is
/// decided by the duration alone, which is all that `duration_nanos` says,
/// and that the call returns without unwinding.
#[verifier::external_body]
fn duration_as_nanos(d: &Duration) -> (n: u128)
    ensures
        n == duration_nanos(*d),
    opens_invariants none
    no_unwind
{
    d.as_nanos()
}

/// A count of nanoseconds as ticks: itself where it fits, the last tick
/// where it does not.
pub open spec fn saturated(nanos: u128) -> u64 {
    if nanos <= u64::MAX {
        nanos as u64
    } else {
        u64::MAX
    }
}

/// The length of `d` in ticks.
pub open spec fn duration_ticks(d: Duration) -> u64 {
    saturated(duration_nanos(d))
}

pub fn ticks_from_nanos(nanos: u128) -> (ticks: u64)
    ensures
        ticks == saturated(nanos),
    opens_invariants none
    no_unwind
{
    if nanos <= u64::MAX as u128 {
        nanos as u64
    } else {
        u64::MAX
    }
}

pub fn ticks_from_duration(d: &Duration) -> (ticks: u64)
    ensures
        ticks == duration_ticks(*d),
    opens_invariants none
    no_unwind
{
    ticks_from_nanos(duration_as_nanos(d))
}

/// A clock that counts ticks from the moment it was started.
pub(crate) struct Clock {
    epoch: Instant,
}

impl Clock {
    /// The instant that tick zero stands for.
    pub(crate) closed spec fn origin(self) -> Instant {
        self.epoch
    }

    /// Starts a clock at the current instant.
    pub(crate) fn start() -> (clock: Clock) {
        Clock { epoch: instant_now() }
    }

    pub(crate) fn epoch(&self) -> (epoch: Instant)
        ensures
            epoch == self.origin(),
    {
        self.epoch
    }

    /// The ticks that have passed since the clock was started. The reading
    /// is the clock's to decide, so nothing is promised of it.
    pub(crate) fn ticks(&self) -> (now: u64)
        opens_invariants none
        no_unwind
    {
        let elapsed = instant_elapsed(&self.epoch);
        ticks_from_duration(&elapsed)
    }
}

} // verus!

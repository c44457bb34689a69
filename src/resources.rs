//! State shared by the systems, one value of each per world.
use std::time::{Duration, Instant};
use vstd::prelude::*;

verus! {

#[verifier::external_type_specification]
#[verifier::external_body]
pub struct ExInstant(Instant);

/// Relies on `Instant::now`: a reading of the monotonic clock. Nothing is
/// promised of its value.
pub assume_specification[ Instant::now ]() -> Instant;

/// Relies on `Instant::elapsed`: the time passed since an instant, read from
/// the clock at the call. Nothing is promised of its value.
pub assume_specification[ Instant::elapsed ](instant: &Instant) -> Duration;

/// Relies on `Duration::as_nanos`: the whole nanoseconds of a duration. The
/// duration is opaque here, so nothing is promised of the count.
pub assume_specification[ Duration::as_nanos ](duration: &Duration) -> u128;

/// Nanoseconds from a clock reading at `last` to one at `now`; a reading
/// that is not later than `last` gives zero.
pub open spec fn elapsed_nanos(last: u64, now: u64) -> u64 {
    if now >= last {
        (now - last) as u64
    } else {
        0
    }
}

/// Time step of the simulation.
pub struct DeltaTime {
    /// The clock readings are taken relative to this instant.
    pub origin: Instant,
    /// Reading of the last update, in nanoseconds since `origin`.
    pub last: u64,
    /// Time between the last two updates, in nanoseconds.
    pub delta: u64,
}

impl DeltaTime {
    /// Records the clock reading `now`: the step is the time since the last
    /// reading, and `now` becomes the last reading.
    pub fn advance(&mut self, now: u64)
        ensures
            final(self).last == now,
            final(self).delta == elapsed_nanos(old(self).last, now),
    {
        self.delta = if now >= self.last {
            now - self.last
        } else {
            0
        };
        self.last = now;
    }

    /// Reads the clock and records the reading as `advance` does.
    pub fn update(&mut self)
        ensures
            final(self).delta == elapsed_nanos(old(self).last, final(self).last),
    {
        let nanos: u128 = self.origin.elapsed().as_nanos();
        let now: u64 = if nanos > u64::MAX as u128 {
            u64::MAX
        } else {
            nanos as u64
        };
        self.advance(now);
    }
}

impl Default for DeltaTime {
    /// Starts the clock: the last reading is now, and the step is zero.
    fn default() -> (r: DeltaTime)
        ensures
            r.last == 0,
            r.delta == 0,
    {
        DeltaTime { origin: Instant::now(), last: 0, delta: 0 }
    }
}

/// Keys held down in the current frame.
#[derive(Clone, Copy, Debug, Default, PartialEq, Eq, Structural)]
pub struct InputState {
    pub up: bool,
    pub down: bool,
    pub left: bool,
    pub right: bool,
    pub action: bool,
}

impl InputState {
    /// No key held.
    pub fn new() -> (r: InputState)
        ensures
            !r.up && !r.down && !r.left && !r.right && !r.action,
    {
        InputState { up: false, down: false, left: false, right: false, action: false }
    }
}

} // verus!

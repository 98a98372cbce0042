//! The pacing of the event loop: when the next frame is asked for.

use vstd::prelude::*;

verus! {

/// Nanoseconds that must have passed since the last redraw request before
/// the next one is made: 20 milliseconds.
pub const REDRAW_INTERVAL_NANOS: u128 = 20_000_000;

/// Milliseconds after which the event loop wakes up again when no event
/// arrives.
pub const WAKE_INTERVAL_MILLIS: u64 = 10;

/// Whether a redraw is to be requested, given the nanoseconds since the last
/// request: only when more than the redraw interval has passed.
pub fn redraw_due(elapsed_nanos: u128) -> (due: bool)
    ensures
        due == (elapsed_nanos > REDRAW_INTERVAL_NANOS),
{
    elapsed_nanos > REDRAW_INTERVAL_NANOS
}

} // verus!

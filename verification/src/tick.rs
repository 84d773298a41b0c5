//! The pace of the screen: how long to wait for a key before drawing again.

use vstd::prelude::*;

verus! {

/// The time between two ticks, in nanoseconds.
pub const TICK_NANOS: u64 = 16_000_000;

/// What is left of a tick after `elapsed` nanoseconds of it: the tick less
/// the time elapsed, and nothing once the tick is over.
pub open spec fn remaining(elapsed: nat) -> nat {
    if elapsed >= TICK_NANOS {
        0
    } else {
        (TICK_NANOS - elapsed) as nat
    }
}

/// How long to wait for a key, in nanoseconds, when `elapsed` nanoseconds
/// have passed since the last tick.
pub fn poll_timeout(elapsed: u128) -> (wait: u64)
    ensures
        wait == remaining(elapsed as nat),
        wait <= TICK_NANOS,
{
    if elapsed >= TICK_NANOS as u128 {
        0
    } else {
        TICK_NANOS - (elapsed as u64)
    }
}

/// Whether a tick is over when `elapsed` nanoseconds have passed since the
/// last one.
pub fn tick_is_over(elapsed: u128) -> (over: bool)
    ensures
        over == (elapsed >= TICK_NANOS),
        over == (remaining(elapsed as nat) == 0),
{
    elapsed >= TICK_NANOS as u128
}

} // verus!

//! The timer governor: the delay and sound timers count down once per tick
//! interval of wall-clock time, however many instructions run meanwhile.
//! Time is a count of milliseconds that the host supplies.

use vstd::prelude::*;

verus! {

/// The least time between two ticks, in milliseconds.
pub const TICK_INTERVAL_MS: u64 = 15;

/// Whether a tick is due at time `now` when the last one was at `last_tick`:
/// a full interval has gone by. A clock that ran backwards makes none due.
pub open spec fn due(last_tick: u64, now: u64) -> bool {
    now - last_tick >= TICK_INTERVAL_MS
}

/// A timer after one tick: one less, and never below zero.
pub open spec fn wound_down(timer: u8) -> u8 {
    if timer > 0 {
        (timer - 1) as u8
    } else {
        0
    }
}

/// Whether a tick is due at time `now`.
pub fn is_due(last_tick: u64, now: u64) -> (yes: bool)
    ensures
        yes == due(last_tick, now),
{
    now >= last_tick && now - last_tick >= TICK_INTERVAL_MS
}

/// Counts a timer down by one tick.
pub fn wind_down(timer: u8) -> (left: u8)
    ensures
        left == wound_down(timer),
{
    if timer > 0 {
        timer - 1
    } else {
        0
    }
}

} // verus!

//! Timing decisions of the event source: how long to poll the input
//! device before the next tick deadline, and when a tick is due. The
//! loop that owns the input device and the channel applies them.

use vstd::prelude::*;

verus! {

/// The time left until the next tick deadline: the input poll may wait
/// this long and no longer, so a tick is never delayed past its
/// deadline; once the deadline has passed, the poll must not block.
pub fn poll_timeout_ms(tick_rate_ms: u64, elapsed_ms: u64) -> (timeout: u64)
    ensures
        timeout == if elapsed_ms >= tick_rate_ms {
            0u64
        } else {
            (tick_rate_ms - elapsed_ms) as u64
        },
{
    if elapsed_ms >= tick_rate_ms {
        0
    } else {
        tick_rate_ms - elapsed_ms
    }
}

/// A tick is due exactly when a full tick interval has elapsed since the
/// last one.
pub fn tick_due(tick_rate_ms: u64, elapsed_ms: u64) -> (due: bool)
    ensures
        due == (elapsed_ms >= tick_rate_ms),
{
    elapsed_ms >= tick_rate_ms
}

} // verus!

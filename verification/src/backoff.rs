use vstd::prelude::*;

verus! {

/// Floor of the connector's retry delay, in milliseconds: the first sleep,
/// and the least any later sleep can be.
pub const BACKOFF_FLOOR_MS: u64 = 200;

/// The connector's next retry delay: the previous delay doubled, raised to
/// the floor, capped at half the connection timeout — so the first delay is
/// the floor itself and each failure doubles it up to the cap.
pub open spec fn spec_next_delay(prev: u64, connection_timeout: u64) -> int {
    let doubled = 2 * prev;
    let raised = if doubled < BACKOFF_FLOOR_MS { BACKOFF_FLOOR_MS as int } else { doubled };
    let cap = connection_timeout as int / 2;
    if raised < cap {
        raised
    } else {
        cap
    }
}

/// Advance the connector worker's exponential backoff by one failure.
pub fn next_delay(prev: u64, connection_timeout: u64) -> (r: u64)
    requires
        prev <= u64::MAX / 2,
    ensures
        r == spec_next_delay(prev, connection_timeout),
{
    let doubled: u64 = prev * 2;
    let raised: u64 = if doubled < BACKOFF_FLOOR_MS { BACKOFF_FLOOR_MS } else { doubled };
    let cap: u64 = connection_timeout / 2;
    if raised < cap {
        raised
    } else {
        cap
    }
}

/// Whether the connector worker must give up on a failed attempt instead of
/// retrying: its elapsed time has exceeded the connection timeout budget.
pub fn give_up(elapsed: u64, connection_timeout: u64) -> (r: bool)
    ensures
        r == (elapsed > connection_timeout),
{
    elapsed > connection_timeout
}

} // verus!

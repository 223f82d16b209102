//! Time as the control core sees it.
//!
//! An instant is a `u64` count of nanoseconds on a monotonic clock, measured
//! from an origin that the caller picks once (the start of the process, say).
//! A duration is a `u64` count of nanoseconds.

use vstd::prelude::*;

verus! {

/// Nanoseconds in one second.
pub const NANOS_PER_SEC: u64 = 1_000_000_000;

/// Time that has passed at `now` since `since`; zero if `since` is the later
/// of the two.
pub open spec fn elapsed(now: u64, since: u64) -> u64 {
    if now >= since {
        (now - since) as u64
    } else {
        0
    }
}

/// Computes [`elapsed`].
pub fn elapsed_since(now: u64, since: u64) -> (d: u64)
    ensures
        d == elapsed(now, since),
{
    now.saturating_sub(since)
}

} // verus!

//! Elapsed-time arithmetic on clock readings.

use vstd::prelude::*;

verus! {

/// Time from `since` to `now`, zero if the clock went back.
pub open spec fn elapsed(now: u64, since: u64) -> int {
    if now >= since {
        now - since
    } else {
        0
    }
}

/// Time from `since` to `now`, zero if the clock went back.
pub fn elapsed_since(now: u64, since: u64) -> (r: u64)
    ensures
        r == elapsed(now, since),
{
    if now >= since {
        now - since
    } else {
        0
    }
}

/// `a + b`, held at `u64::MAX`.
pub open spec fn sat_add(a: u64, b: u64) -> u64 {
    if a + b <= u64::MAX {
        (a + b) as u64
    } else {
        u64::MAX
    }
}

/// `a + b`, held at `u64::MAX`.
pub fn saturating_add(a: u64, b: u64) -> (r: u64)
    ensures
        r == sat_add(a, b),
{
    if a <= u64::MAX - b {
        a + b
    } else {
        u64::MAX
    }
}

} // verus!

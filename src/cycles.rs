//! Busy waiting on the time-stamp counter.
use vstd::prelude::*;

verus! {

/// Whether a wait of `cycles` cycles that began at counter value `start` is
/// still going on at counter value `now`; the counter never runs backwards.
pub fn still_waiting(start: u64, now: u64, cycles: u64) -> (r: bool)
    requires
        start <= now,
    ensures
        r == (now - start < cycles),
{
    now - start < cycles
}

} // verus!

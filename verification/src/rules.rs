//! The arithmetic of the step counter.
use vstd::prelude::*;

verus! {

/// The value a new counter starts from, and so the number of the first step.
pub const FIRST_STEP: u64 = 1;

/// Step `n` may proceed exactly when the counter reads `n`.
pub open spec fn is_turn(current: u64, n: u64) -> bool {
    current == n
}

/// The counter after one release: one more than before. A counter that has
/// reached the largest `u64` stays there.
pub open spec fn next_step(current: u64) -> u64 {
    if current < u64::MAX {
        (current + 1) as u64
    } else {
        current
    }
}

/// Whether a thread that asked for step `n` has to go on waiting while the
/// counter reads `current`.
pub fn must_wait(current: u64, n: u64) -> (wait: bool)
    ensures
        wait == !is_turn(current, n),
{
    current != n
}

/// Computes the counter that a release leaves behind.
pub fn advance(current: u64) -> (next: u64)
    ensures
        next == next_step(current),
    opens_invariants none
    no_unwind
{
    if current < u64::MAX {
        current + 1
    } else {
        current
    }
}

/// A release moves the counter on by exactly one, and the counter never goes
/// back. Only at the largest `u64`, which no counter reaches by counting up
/// from 1, does a release leave it where it is.
pub proof fn release_adds_one(current: u64)
    ensures
        current < u64::MAX ==> next_step(current) == current + 1,
        next_step(current) >= current,
{
}

} // verus!

//! The sequencer, its switch and its step tokens.
use vstd::prelude::*;
use parking_lot::{Condvar, Mutex};
use std::sync::atomic::{AtomicBool, Ordering};
use crate::rules::{advance, is_turn, next_step, FIRST_STEP};
use crate::sync::{current, first_value, lock, new_counter, notify_all, set_current, wait_for_turn, StepGuard};

verus! {

/// What the threads of one schedule share: the step counter behind its lock,
/// the condition variable on which waiting threads sleep, and the switch that
/// turns the mechanism on and off.
pub struct Sequencer {
    pub(crate) current_step: Mutex<u64>,
    pub(crate) condvar: Condvar,
    pub(crate) enabled: AtomicBool,
}

impl Sequencer {
    /// The value that the counter of this sequencer started from.
    pub closed spec fn first_step(&self) -> u64 {
        first_value(self.current_step)
    }

    /// A sequencer whose counter stands at the first step and whose switch is
    /// off.
    pub fn new() -> (sequencer: Sequencer)
        ensures
            sequencer.first_step() == FIRST_STEP,
    {
        Sequencer {
            current_step: new_counter(FIRST_STEP),
            condvar: Condvar::new(),
            enabled: AtomicBool::new(false),
        }
    }
}

/// Turns the sequencer on: from now on `step` waits for its turn.
///
/// The counter is not touched.
pub fn enable(sequencer: &Sequencer) {
    sequencer.enabled.store(true, Ordering::SeqCst)
}

/// Turns the sequencer off: from now on `step` hands out inert tokens.
///
/// The counter is not touched.
pub fn disable(sequencer: &Sequencer) {
    sequencer.enabled.store(false, Ordering::SeqCst)
}

/// Reads the switch. Never blocks.
///
/// The switch is shared, so the answer is that of the moment: another thread
/// may turn it before the caller acts on it.
pub fn is_enabled(sequencer: &Sequencer) -> bool {
    sequencer.enabled.load(Ordering::SeqCst)
}

/// The token of one step. Dropping it ends the step.
#[must_use]
pub enum Step<'a> {
    /// Handed out by an enabled sequencer: the thread owns the lock of the
    /// counter until the token is dropped.
    Real {
        /// The number of the step.
        n: u64,
        /// The locked counter.
        current_step: StepGuard<'a>,
    },
    /// Handed out by a disabled sequencer: owns nothing, and dropping it does
    /// nothing.
    Dummy,
}

impl<'a> Step<'a> {
    /// The token is the active token of step `n`, at the start of its region:
    /// it is marked `n`, and the counter that it has locked reads `n`.
    pub open spec fn begins(&self, n: u64) -> bool {
        self matches Step::Real { n: number, current_step } && number == n
            && is_turn(current_step@, n)
    }

    /// What dropping the token `before` makes of it. An active token keeps its
    /// number, and its counter moves on by one step; an inert token stays as
    /// it is.
    pub open spec fn released_from(&self, before: Step<'a>) -> bool {
        match before {
            Step::Real { n, current_step } => {
                self matches Step::Real { n: number, current_step: moved } && number == n
                    && moved@ == next_step(current_step@)
            },
            Step::Dummy => self is Dummy,
        }
    }

    /// Ends this step and begins step `n` of `sequencer`. Steps start at 1.
    ///
    /// Which token comes back depends on the switch at the moment of the call,
    /// as for [`step`].
    pub fn then(self, sequencer: &'a Sequencer, n: u64) -> (token: Step<'a>)
        requires
            n != 0,
        ensures
            token is Dummy || token.begins(n),
    {
        drop(self);
        step(sequencer, n)
    }
}

impl<'a> Drop for Step<'a> {
    /// Ends the step. For an active token the counter moves on by one and every
    /// waiting thread is woken; after that the lock is given up. For an inert
    /// token nothing happens, whatever the switch says by now.
    fn drop(&mut self)
        ensures
            final(self).released_from(*old(self)),
        opens_invariants none
        no_unwind
    {
        match self {
            Step::Real { current_step, .. } => {
                let reached: u64 = current(current_step);
                set_current(current_step, advance(reached));
                notify_all(current_step);
            },
            Step::Dummy => {},
        }
    }
}

/// Waits until the counter of `sequencer` reads `n`, and hands out the active
/// token of step `n`.
///
/// The thread sleeps while it is not its turn, and looks at the counter again
/// each time a step has ended. It keeps the lock from the moment it finds the
/// counter at `n` until the token is dropped, so no other step begins in
/// between.
fn real_step<'a>(sequencer: &'a Sequencer, n: u64) -> (token: Step<'a>)
    ensures
        token.begins(n),
{
    let mut current_step = lock(sequencer);
    wait_for_turn(&mut current_step, n);
    Step::Real { n, current_step }
}

/// Begins step `n` for a caller that has read the switch as `enabled`: waits
/// for the turn of step `n` if it was on, and hands out the inert token at once
/// if it was off. Steps start at 1.
pub fn step_with<'a>(sequencer: &'a Sequencer, n: u64, enabled: bool) -> (token: Step<'a>)
    requires
        n != 0,
    ensures
        enabled ==> token.begins(n),
        !enabled ==> token is Dummy,
{
    if enabled {
        real_step(sequencer, n)
    } else {
        Step::Dummy
    }
}

/// Begins step `n`: blocks until every step before it has ended. Steps start
/// at 1.
///
/// Which token comes back depends on the switch at the moment of the call: the
/// active token of step `n` if the sequencer is enabled, the inert token if it
/// is not.
pub fn step<'a>(sequencer: &'a Sequencer, n: u64) -> (token: Step<'a>)
    requires
        n != 0,
    ensures
        token is Dummy || token.begins(n),
{
    let enabled = is_enabled(sequencer);
    step_with(sequencer, n, enabled)
}

} // verus!

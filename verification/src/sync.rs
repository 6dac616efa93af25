//! The boundary to `parking_lot`.
//!
//! Nothing in this file is proved. Each item states what the library takes on
//! trust from the lock and the condition variable of `parking_lot`; the rest of
//! the crate is verified against these statements.
use vstd::prelude::*;
use parking_lot::{Condvar, Mutex, MutexGuard};
use crate::rules::{is_turn, must_wait};
use crate::sequencer::Sequencer;

verus! {

/// `lock_api::Mutex`, the type behind `parking_lot::Mutex`. Opaque: a mutex
/// that threads share says nothing about what it holds at the moment.
#[verifier::external_type_specification]
#[verifier::external_body]
#[verifier::reject_recursive_types(R)]
#[verifier::reject_recursive_types(T)]
pub struct ExMutex<R, T: ?Sized>(parking_lot::lock_api::Mutex<R, T>);

/// `parking_lot::RawMutex`, the lock inside `parking_lot::Mutex`. Opaque.
#[verifier::external_type_specification]
#[verifier::external_body]
pub struct ExRawMutex(parking_lot::RawMutex);

/// `parking_lot::Condvar`. Opaque.
#[verifier::external_type_specification]
#[verifier::external_body]
pub struct ExCondvar(Condvar);

/// The step counter of one sequencer, locked.
///
/// Inside is the `parking_lot::MutexGuard` of the sequencer's counter, and with
/// it a reference to the condition variable of the same sequencer. As long as a
/// thread owns a `StepGuard`, no other thread reads or writes that counter.
///
/// `MutexGuard` cannot be declared to Verus, because its definition is bounded
/// by the trait `lock_api::RawMutex`; so this struct is opaque, and the
/// functions of this file are the only code that looks inside. The condition
/// variable is kept beside the guard so that the two cannot be mixed up: no
/// code can wait on the condition variable of one sequencer with the counter of
/// another.
#[verifier::external_body]
pub struct StepGuard<'a> {
    counter: MutexGuard<'a, u64>,
    changed: &'a Condvar,
}

/// The value of the counter that `guard` has locked.
pub uninterp spec fn locked_step(guard: StepGuard) -> u64;

/// The value that the counter `mutex` was created with.
pub uninterp spec fn first_value(mutex: Mutex<u64>) -> u64;

impl<'a> View for StepGuard<'a> {
    type V = u64;

    /// The counter's value, for as long as the guard is held.
    open spec fn view(&self) -> u64 {
        locked_step(*self)
    }
}

/// `parking_lot::Mutex::new`: an unlocked mutex that holds `value`.
#[verifier::external_body]
pub(crate) fn new_counter(value: u64) -> (mutex: Mutex<u64>)
    ensures
        first_value(mutex) == value,
{
    Mutex::new(value)
}

/// `parking_lot::Condvar::new`: a condition variable that no thread waits on.
pub assume_specification[ Condvar::new ]() -> Condvar;

/// `parking_lot::Mutex::lock`, on the counter of `sequencer`.
///
/// Returns once the calling thread owns the lock. Nothing is promised about the
/// value it finds: other threads may have ended any number of steps. The call
/// does not return while another guard of the same counter is alive, so a
/// thread that still owns one blocks itself for good.
#[verifier::external_body]
pub(crate) fn lock<'a>(sequencer: &'a Sequencer) -> (guard: StepGuard<'a>)
{
    StepGuard { counter: sequencer.current_step.lock(), changed: &sequencer.condvar }
}

/// Reads the counter through the guard (`Deref` of `MutexGuard`).
#[verifier::external_body]
pub(crate) fn current(guard: &StepGuard) -> (value: u64)
    ensures
        value == locked_step(*guard),
    opens_invariants none
    no_unwind
{
    *guard.counter
}

/// Writes the counter through the guard (`DerefMut` of `MutexGuard`).
#[verifier::external_body]
pub(crate) fn set_current(guard: &mut StepGuard, value: u64)
    ensures
        locked_step(*final(guard)) == value,
    opens_invariants none
    no_unwind
{
    *guard.counter = value;
}

/// `parking_lot::Condvar::wait_while`, with [`must_wait`] for step `n` as its
/// condition.
///
/// `wait_while` tests the condition with the lock held. While it is true, it
/// gives up the lock, sleeps until the condition variable is notified, takes
/// the lock again and tests anew. It returns with the lock held and the
/// condition false, that is, with the counter at `n`; if the counter never
/// gets there, it does not return.
///
/// `wait_while` panics if the condition variable is in use with another mutex.
/// That cannot be: the only `StepGuard`s are those that [`lock`] makes, and
/// each pairs the counter of a sequencer with that sequencer's own condition
/// variable.
#[verifier::external_body]
pub(crate) fn wait_for_turn(guard: &mut StepGuard, n: u64)
    ensures
        is_turn(locked_step(*final(guard)), n),
{
    guard.changed.wait_while(&mut guard.counter, |current| must_wait(*current, n));
}

/// `parking_lot::Condvar::notify_all`: wakes every thread that waits for the
/// counter to change. Returns how many it woke, which is up to the other
/// threads. The counter itself is left as it is.
#[verifier::external_body]
pub(crate) fn notify_all(guard: &StepGuard) -> (woken: usize)
    opens_invariants none
    no_unwind
{
    guard.changed.notify_all()
}

/// `core::mem::drop`: ends the life of its argument, which runs the destructor.
pub assume_specification<T>[ core::mem::drop::<T> ](_x: T);

} // verus!

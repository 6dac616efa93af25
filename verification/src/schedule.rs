//! Runs of an enabled sequencer, and what holds of every one of them.
//!
//! A run is the sequence of events that the counter of one sequencer goes
//! through, whichever threads cause them. There are two kinds of event, one
//! for each thing that the mechanism does: a call for a step returns with the
//! active token, and an active token is dropped. What each of them needs and
//! does is taken from the contracts of the sequencer
//! ([`token_is_begin_event`], [`drop_is_end_event`]); that one token is alive
//! at a time is what the lock gives. The laws below follow from these rules
//! alone, so they hold however the threads are scheduled.
use vstd::prelude::*;
use crate::rules::{is_turn, next_step, FIRST_STEP};
use crate::sequencer::Step;

verus! {

/// What the lock of a sequencer protects, seen as one value.
pub struct Monitor {
    /// The step counter.
    pub counter: u64,
    /// The number of the step whose active token is alive, if there is one.
    pub active: Option<u64>,
}

/// One thing that happens to the counter of an enabled sequencer.
pub enum Event {
    /// A call for step `n` returns with the active token.
    Begin { n: u64 },
    /// The active token is dropped.
    End,
}

/// The monitor of a sequencer whose counter reads `counter` and that has no
/// token alive.
pub open spec fn idle(counter: u64) -> Monitor {
    Monitor { counter, active: None }
}

/// Whether `event` can happen in `monitor`: a step begins only when no token is
/// alive and it is its turn; only a token that is alive can be dropped.
pub open spec fn admits(monitor: Monitor, event: Event) -> bool {
    match event {
        Event::Begin { n } => monitor.active is None && is_turn(monitor.counter, n),
        Event::End => monitor.active is Some,
    }
}

/// The monitor after `event` has happened in `monitor`.
pub open spec fn after(monitor: Monitor, event: Event) -> Monitor {
    match event {
        Event::Begin { n } => Monitor { counter: monitor.counter, active: Some(n) },
        Event::End => Monitor { counter: next_step(monitor.counter), active: None },
    }
}

/// Where `events` lead from an idle sequencer whose counter reads `initial`:
/// the monitor after the last of them, or `None` if one of them could not
/// happen when it came.
pub open spec fn run(initial: u64, events: Seq<Event>) -> Option<Monitor>
    decreases events.len(),
{
    if events.len() == 0 {
        Some(idle(initial))
    } else {
        match run(initial, events.drop_last()) {
            Some(monitor) => if admits(monitor, events.last()) {
                Some(after(monitor, events.last()))
            } else {
                None
            },
            None => None,
        }
    }
}

/// The numbers of the steps that begin in `events`, in the order in which they
/// begin.
pub open spec fn begun(events: Seq<Event>) -> Seq<u64>
    decreases events.len(),
{
    if events.len() == 0 {
        Seq::empty()
    } else {
        match events.last() {
            Event::Begin { n } => begun(events.drop_last()).push(n),
            Event::End => begun(events.drop_last()),
        }
    }
}

/// How many steps end in `events`.
pub open spec fn ended(events: Seq<Event>) -> nat
    decreases events.len(),
{
    if events.len() == 0 {
        0
    } else {
        match events.last() {
            Event::Begin { .. } => ended(events.drop_last()),
            Event::End => ended(events.drop_last()) + 1,
        }
    }
}

/// What the owner of an active token knows of the monitor: the counter reads
/// what the token has locked, and the step that is alive is the token's own.
pub open spec fn seen_by(token: Step) -> Monitor
    recommends
        token is Real,
{
    Monitor { counter: token->current_step@, active: Some(token->n) }
}

/// The token that `step` hands out for step `n` is the event `Begin { n }`: it
/// comes when the counter reads `n`, and it leaves step `n` alive with the
/// counter as it was.
pub proof fn token_is_begin_event(token: Step, n: u64)
    requires
        token.begins(n),
    ensures
        admits(idle(n), Event::Begin { n }),
        seen_by(token) == after(idle(n), Event::Begin { n }),
{
}

/// Dropping an active token is the event `End`: the counter of the dropped
/// token reads what the monitor reads after `End`.
pub proof fn drop_is_end_event(before: Step, dropped: Step)
    requires
        before is Real,
        dropped.released_from(before),
    ensures
        admits(seen_by(before), Event::End),
        dropped is Real,
        dropped->current_step@ == after(seen_by(before), Event::End).counter,
{
}

/// `value`, or the largest `u64` if `value` is beyond it.
spec fn capped(value: int) -> u64 {
    if value <= u64::MAX {
        value as u64
    } else {
        u64::MAX
    }
}

/// All that the laws below state of a run, in one induction over its events.
proof fn lemma_run(initial: u64, events: Seq<Event>)
    requires
        run(initial, events) is Some,
    ensures
        run(initial, events)->0.counter == capped(initial + ended(events)),
        run(initial, events)->0.active is None ==> begun(events).len() == ended(events),
        run(initial, events)->0.active matches Some(n) ==> {
            &&& begun(events).len() == ended(events) + 1
            &&& n == begun(events).last()
            &&& n == run(initial, events)->0.counter
        },
        forall|i: int|
            0 <= i < begun(events).len() ==> #[trigger] begun(events)[i] == capped(initial + i),
    decreases events.len(),
{
    if events.len() > 0 {
        lemma_run(initial, events.drop_last());
    }
}

/// After a run the counter reads the value it started from plus the number of
/// steps that have ended.
pub proof fn counter_counts_ended_steps(initial: u64, events: Seq<Event>)
    requires
        run(initial, events) is Some,
        initial + ended(events) <= u64::MAX,
    ensures
        run(initial, events) matches Some(last) && last.counter == initial + ended(events),
{
    lemma_run(initial, events);
}

/// Every step that has begun has ended, but for the one whose token is alive:
/// each active token is released once, and no two are alive together. The
/// token that is alive is that of the step that began last, and the counter
/// still reads its number.
pub proof fn one_release_per_step(initial: u64, events: Seq<Event>)
    requires
        run(initial, events) is Some,
    ensures
        run(initial, events) matches Some(last) && match last.active {
            Some(n) => begun(events).len() == ended(events) + 1 && n == begun(events).last() && n
                == last.counter,
            None => begun(events).len() == ended(events),
        },
{
    lemma_run(initial, events);
}

/// On a new sequencer the steps begin in the order of their numbers: the first
/// region to start is that of step 1, the next that of step 2, and so on,
/// however the threads that asked for them are scheduled.
pub proof fn steps_begin_in_order(events: Seq<Event>, i: int)
    requires
        run(FIRST_STEP, events) is Some,
        0 <= i < begun(events).len(),
        i < u64::MAX,
    ensures
        begun(events)[i] == i + 1,
{
    lemma_run(FIRST_STEP, events);
}

/// Of two steps of a run on a new sequencer, the one that begins later has the
/// larger number.
pub proof fn later_step_has_larger_number(events: Seq<Event>, i: int, j: int)
    requires
        run(FIRST_STEP, events) is Some,
        0 <= i < j < begun(events).len(),
        j < u64::MAX,
    ensures
        begun(events)[i] < begun(events)[j],
{
    lemma_run(FIRST_STEP, events);
}

/// The events of a run in which steps 1 to `count` begin and end one after the
/// other.
pub open spec fn in_turn(count: nat) -> Seq<Event>
    decreases count,
{
    if count == 0 {
        Seq::empty()
    } else {
        in_turn((count - 1) as nat).push(Event::Begin { n: count as u64 }).push(Event::End)
    }
}

/// Steps that are asked for in the order of their numbers all run: on a new
/// sequencer steps 1 to `count` can begin and end one after the other, and they
/// leave the counter at `count + 1`.
pub proof fn steps_in_turn_run(count: nat)
    requires
        count < u64::MAX,
    ensures
        run(FIRST_STEP, in_turn(count)) == Some(idle((count + 1) as u64)),
    decreases count,
{
    if count > 0 {
        let earlier = in_turn((count - 1) as nat);
        let begun = earlier.push(Event::Begin { n: count as u64 });
        steps_in_turn_run((count - 1) as nat);
        assert(begun.drop_last() == earlier);
        assert(run(FIRST_STEP, begun) == Some(
            Monitor { counter: count as u64, active: Some(count as u64) },
        ));
        assert(in_turn(count).drop_last() == begun);
    }
}

/// When the token of a step is dropped, then of all the steps that threads may
/// be waiting for only the next one can begin: the others find that it is not
/// their turn, and wait on.
pub proof fn release_admits_next_step_only(monitor: Monitor, n: u64)
    requires
        monitor.active is Some,
        monitor.counter < u64::MAX,
    ensures
        admits(after(monitor, Event::End), Event::Begin { n }) <==> n == monitor.counter + 1,
{
}

} // verus!

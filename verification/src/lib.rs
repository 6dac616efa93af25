//! Hiatus forces marked regions of a concurrent program to run in a chosen order.
//!
//! A region is marked with an ordinal *step*. A [`Sequencer`] keeps one counter,
//! starting at 1; `step(&sequencer, n)` blocks its thread until the counter reads
//! `n` and then hands out a [`Step`] token. Dropping the token moves the counter
//! on by one and wakes every waiting thread, so the regions run as steps 1, 2,
//! 3, ... whatever the scheduler does. While the sequencer is disabled, `step`
//! hands out an inert token at once and nothing is ordered.
//!
//! * [`rules`] holds the arithmetic of the counter: when a step may proceed and
//!   what a release does to the counter.
//! * [`sync`] is the boundary to `parking_lot`: the lock around the counter and
//!   the condition variable, each behind a contract that is trusted, not proved.
//! * [`sequencer`] is the mechanism itself.
//! * [`schedule`] states what every run of the mechanism looks like, and proves it.
pub mod rules;
pub mod sync;
pub mod sequencer;
pub mod schedule;

pub use crate::sequencer::{disable, enable, is_enabled, step, step_with, Sequencer, Step};
pub use crate::sync::StepGuard;

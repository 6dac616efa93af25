use hiatus::rules::{advance, must_wait, FIRST_STEP};
use hiatus::{disable, enable, is_enabled, step, step_with, Sequencer, Step};

#[test]
fn first_step_is_one() {
    assert_eq!(FIRST_STEP, 1);
}

#[test]
fn must_wait_until_the_counter_reads_the_step() {
    assert!(!must_wait(1, 1));
    assert!(must_wait(1, 2));
    assert!(must_wait(2, 1));
    assert!(must_wait(0, u64::MAX));
    assert!(!must_wait(u64::MAX, u64::MAX));
}

#[test]
fn advance_adds_one() {
    assert_eq!(advance(1), 2);
    assert_eq!(advance(41), 42);
    assert_eq!(advance(u64::MAX - 1), u64::MAX);
}

#[test]
fn advance_stays_at_the_largest_value() {
    assert_eq!(advance(u64::MAX), u64::MAX);
}

#[test]
fn new_sequencer_is_disabled() {
    let sequencer = Sequencer::new();
    assert!(!is_enabled(&sequencer));
}

#[test]
fn enable_and_disable_set_the_switch() {
    let sequencer = Sequencer::new();
    enable(&sequencer);
    assert!(is_enabled(&sequencer));
    disable(&sequencer);
    assert!(!is_enabled(&sequencer));
}

#[test]
fn repeated_enable_and_disable_change_nothing() {
    let sequencer = Sequencer::new();
    disable(&sequencer);
    assert!(!is_enabled(&sequencer));
    enable(&sequencer);
    enable(&sequencer);
    enable(&sequencer);
    assert!(is_enabled(&sequencer));
    disable(&sequencer);
    disable(&sequencer);
    assert!(!is_enabled(&sequencer));
}

#[test]
fn switch_reflects_the_most_recent_call() {
    let sequencer = Sequencer::new();
    enable(&sequencer);
    disable(&sequencer);
    enable(&sequencer);
    assert!(is_enabled(&sequencer));
    disable(&sequencer);
    enable(&sequencer);
    disable(&sequencer);
    assert!(!is_enabled(&sequencer));
}

#[test]
fn switch_does_not_touch_the_counter() {
    let sequencer = Sequencer::new();
    enable(&sequencer);
    disable(&sequencer);
    enable(&sequencer);
    let first = step(&sequencer, 1);
    assert!(matches!(first, Step::Real { n: 1, .. }));
}

#[test]
fn sequencers_are_independent() {
    let one = Sequencer::new();
    let other = Sequencer::new();
    enable(&one);
    assert!(is_enabled(&one));
    assert!(!is_enabled(&other));
    let held = step(&one, 1);
    assert!(matches!(held, Step::Real { n: 1, .. }));
    assert!(matches!(step(&other, 1), Step::Dummy));
    enable(&other);
    let also_held = step(&other, 1);
    assert!(matches!(also_held, Step::Real { n: 1, .. }));
}

#[test]
fn steps_in_order_on_one_thread_never_block() {
    let sequencer = Sequencer::new();
    enable(&sequencer);
    let first = step(&sequencer, 1);
    assert!(matches!(first, Step::Real { n: 1, .. }));
    drop(first);
    let second = step(&sequencer, 2);
    assert!(matches!(second, Step::Real { n: 2, .. }));
    drop(second);
    let third = step(&sequencer, 3);
    assert!(matches!(third, Step::Real { n: 3, .. }));
}

#[test]
fn counter_is_one_more_than_the_releases() {
    let sequencer = Sequencer::new();
    enable(&sequencer);
    let mut n: u64 = 1;
    while n <= 100 {
        let token = step(&sequencer, n);
        assert!(matches!(token, Step::Real { .. }));
        drop(token);
        n += 1;
    }
    let next = step(&sequencer, 101);
    assert!(matches!(next, Step::Real { n: 101, .. }));
}

#[test]
fn token_is_released_at_the_end_of_its_scope() {
    let sequencer = Sequencer::new();
    enable(&sequencer);
    {
        let _first = step(&sequencer, 1);
    }
    let second = step(&sequencer, 2);
    assert!(matches!(second, Step::Real { n: 2, .. }));
}

#[test]
fn disabled_step_is_inert_for_any_number() {
    let sequencer = Sequencer::new();
    assert!(matches!(step(&sequencer, 1), Step::Dummy));
    assert!(matches!(step(&sequencer, 7), Step::Dummy));
    assert!(matches!(step(&sequencer, 7), Step::Dummy));
    assert!(matches!(step(&sequencer, u64::MAX), Step::Dummy));
}

#[test]
fn releasing_inert_tokens_leaves_the_counter() {
    let sequencer = Sequencer::new();
    drop(step(&sequencer, 1));
    drop(step(&sequencer, 2));
    drop(step(&sequencer, 9));
    enable(&sequencer);
    let first = step(&sequencer, 1);
    assert!(matches!(first, Step::Real { n: 1, .. }));
}

#[test]
fn inert_token_stays_inert_after_enable() {
    let sequencer = Sequencer::new();
    let inert = step(&sequencer, 5);
    assert!(matches!(inert, Step::Dummy));
    enable(&sequencer);
    drop(inert);
    let first = step(&sequencer, 1);
    assert!(matches!(first, Step::Real { n: 1, .. }));
}

#[test]
fn active_token_releases_after_disable() {
    let sequencer = Sequencer::new();
    enable(&sequencer);
    let first = step(&sequencer, 1);
    disable(&sequencer);
    drop(first);
    assert!(matches!(step(&sequencer, 2), Step::Dummy));
    enable(&sequencer);
    let second = step(&sequencer, 2);
    assert!(matches!(second, Step::Real { n: 2, .. }));
}

#[test]
fn step_with_follows_the_flag_it_is_given() {
    let sequencer = Sequencer::new();
    let active = step_with(&sequencer, 1, true);
    assert!(matches!(active, Step::Real { n: 1, .. }));
    drop(active);
    enable(&sequencer);
    let inert = step_with(&sequencer, 1, false);
    assert!(matches!(inert, Step::Dummy));
    drop(inert);
    let second = step_with(&sequencer, 2, true);
    assert!(matches!(second, Step::Real { n: 2, .. }));
}

#[test]
fn then_ends_one_step_and_begins_the_next() {
    let sequencer = Sequencer::new();
    enable(&sequencer);
    let first = step(&sequencer, 1);
    let second = first.then(&sequencer, 2);
    assert!(matches!(second, Step::Real { n: 2, .. }));
    let third = second.then(&sequencer, 3);
    assert!(matches!(third, Step::Real { n: 3, .. }));
    drop(third);
    let fourth = step(&sequencer, 4);
    assert!(matches!(fourth, Step::Real { n: 4, .. }));
}

#[test]
fn then_on_an_inert_token_reads_the_switch_anew() {
    let sequencer = Sequencer::new();
    let inert = step(&sequencer, 3);
    assert!(matches!(inert, Step::Dummy));
    enable(&sequencer);
    let first = inert.then(&sequencer, 1);
    assert!(matches!(first, Step::Real { n: 1, .. }));
}

#[test]
fn then_while_disabled_still_releases() {
    let sequencer = Sequencer::new();
    enable(&sequencer);
    let first = step(&sequencer, 1);
    disable(&sequencer);
    let inert = first.then(&sequencer, 2);
    assert!(matches!(inert, Step::Dummy));
    enable(&sequencer);
    let second = step(&sequencer, 2);
    assert!(matches!(second, Step::Real { n: 2, .. }));
}

use k_lock::futex::release_word;
use k_lock::futex::take_exchange;
use k_lock::futex::Exchange;
use k_lock::futex::spin_step;
use k_lock::futex::SpinStep;
use k_lock::futex::acquire_epoch_order;
use k_lock::futex::contended_plan;
use k_lock::futex::spin_load_order;
use k_lock::futex::spin_settles;
use k_lock::futex::swap_outcome;
use k_lock::futex::wakes_after_release;
use k_lock::futex::ContendedOutcome;
use k_lock::futex::ContendedPlan;
use k_lock::futex::MemoryOrder;
use k_lock::futex::SpinState;
use k_lock::futex::CONTENDED;
use k_lock::futex::EXTRA_CONTENDED;
use k_lock::futex::LOCKED;
use k_lock::futex::UNLOCKED;

#[test]
fn the_contended_plan_stays_contended() {
    assert_eq!(contended_plan(UNLOCKED), ContendedPlan::SwapIn(CONTENDED));
    assert_eq!(contended_plan(LOCKED), ContendedPlan::SwapIn(CONTENDED));
    assert_eq!(contended_plan(CONTENDED), ContendedPlan::SwapIn(EXTRA_CONTENDED));
    assert_eq!(contended_plan(EXTRA_CONTENDED), ContendedPlan::Wait(EXTRA_CONTENDED));
    assert_eq!(contended_plan(u32::MAX), ContendedPlan::Wait(EXTRA_CONTENDED));
}

#[test]
fn a_swap_wins_only_from_unlocked() {
    assert_eq!(swap_outcome(CONTENDED, UNLOCKED), ContendedOutcome::Acquired);
    assert_eq!(swap_outcome(CONTENDED, LOCKED), ContendedOutcome::Wait(CONTENDED));
    assert_eq!(
        swap_outcome(EXTRA_CONTENDED, CONTENDED),
        ContendedOutcome::Wait(EXTRA_CONTENDED)
    );
    assert_eq!(swap_outcome(EXTRA_CONTENDED, UNLOCKED), ContendedOutcome::Acquired);
}

#[test]
fn releases_wake_by_contention() {
    assert_eq!(wakes_after_release(UNLOCKED), 0);
    assert_eq!(wakes_after_release(LOCKED), 0);
    assert_eq!(wakes_after_release(CONTENDED), 1);
    assert_eq!(wakes_after_release(EXTRA_CONTENDED), 2);
    assert_eq!(wakes_after_release(4), 0);
}

#[test]
fn every_wait_is_on_a_value_whose_release_wakes() {
    for state in 0..6u32 {
        let expected = match contended_plan(state) {
            ContendedPlan::SwapIn(target) => match swap_outcome(target, LOCKED) {
                ContendedOutcome::Wait(e) => e,
                ContendedOutcome::Acquired => panic!("the word was locked"),
            },
            ContendedPlan::Wait(e) => e,
        };
        assert!(wakes_after_release(expected) >= 1);
    }
}

#[test]
fn orderings() {
    assert_eq!(spin_load_order(400), MemoryOrder::Relaxed);
    assert_eq!(spin_load_order(201), MemoryOrder::Relaxed);
    assert_eq!(spin_load_order(200), MemoryOrder::Acquire);
    assert_eq!(spin_load_order(0), MemoryOrder::Acquire);
    assert_eq!(acquire_epoch_order(UNLOCKED), MemoryOrder::Relaxed);
    assert_eq!(acquire_epoch_order(LOCKED), MemoryOrder::Relaxed);
    assert_eq!(acquire_epoch_order(CONTENDED), MemoryOrder::Release);
}

#[test]
fn spinning_settles_off_locked_or_out_of_spins() {
    assert!(!spin_settles(10, LOCKED));
    assert!(spin_settles(0, LOCKED));
    assert!(spin_settles(10, UNLOCKED));
    assert!(spin_settles(10, CONTENDED));
    assert!(spin_settles(10, EXTRA_CONTENDED));
}

#[test]
fn spin_states() {
    assert_eq!(
        SpinState::start(),
        SpinState { spin: 400, epoch: 0, pause_first: false }
    );
    assert_eq!(
        SpinState::after_refresh(9),
        SpinState { spin: 400, epoch: 9, pause_first: true }
    );
}

#[test]
fn the_taking_exchange_goes_from_unlocked_to_locked() {
    assert_eq!(take_exchange(), Exchange { current: UNLOCKED, new: LOCKED });
    assert_eq!(release_word(), UNLOCKED);
}

#[test]
fn an_unsettled_spin_refreshes_or_spends() {
    assert_eq!(spin_step(10, 4, 5), SpinStep::Refresh(5));
    assert_eq!(spin_step(10, 4, 4), SpinStep::Continue(9));
    assert_eq!(spin_step(1, 4, 4), SpinStep::Continue(0));
    assert_eq!(spin_step(1, 4, 0), SpinStep::Refresh(0));
}

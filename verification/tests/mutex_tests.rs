use k_lock::futex::SpinOutcome;
use k_lock::futex::SpinState;
use k_lock::futex::CONTENDED;
use k_lock::futex::LOCKED;
use k_lock::futex::UNLOCKED;
use k_lock::Mutex;
use k_lock::TryLockError;

#[test]
fn try_lock_takes_a_fresh_mutex_and_refuses_a_held_one() {
    let m = Mutex::new(5u32);
    let guard = match m.try_lock(false) {
        Ok(g) => g,
        Err(_) => panic!("a fresh mutex must lock"),
    };
    assert!(matches!(m.try_lock(false), Err(TryLockError::WouldBlock)));
    assert!(m.lock_fast_path(false).is_none());
    let unlocked = guard.unlock(false);
    assert_eq!(unlocked.released, LOCKED);
    assert_eq!(unlocked.woken, 0);
    assert!(!unlocked.poisoned);
    assert!(m.try_lock(false).is_ok());
}

#[test]
fn unlocking_releases_the_word_for_the_next_holder() {
    let m = Mutex::new(());
    for _ in 0..3 {
        let guard = match m.lock_fast_path(false) {
            Some(Ok(g)) => g,
            _ => panic!("an unlocked mutex must lock"),
        };
        assert!(m.lock_fast_path(false).is_none());
        assert_eq!(guard.unlock(false).released, LOCKED);
    }
}

#[test]
fn a_holder_that_starts_panicking_poisons_the_mutex() {
    let m = Mutex::new(0i32);
    let guard = match m.try_lock(false) {
        Ok(g) => g,
        Err(_) => panic!("lock must succeed"),
    };
    assert!(!m.is_poisoned());
    let unlocked = guard.unlock(true);
    assert!(unlocked.poisoned);
    assert!(m.is_poisoned());
    match m.try_lock(false) {
        Ok(_) => panic!("must not lock cleanly"),
        Err(TryLockError::WouldBlock) => panic!("the mutex is free"),
        Err(TryLockError::Poisoned(err)) => {
            let guard = err.into_inner();
            guard.unlock(false);
        }
    }
    match m.lock_fast_path(false) {
        Some(Err(err)) => {
            err.into_inner().unlock(false);
        }
        _ => panic!("a poisoned mutex reports poison"),
    }
    assert!(m.is_poisoned());
}

#[test]
fn a_holder_that_was_already_panicking_does_not_poison() {
    let m = Mutex::new(0i32);
    let guard = match m.try_lock(true) {
        Ok(g) => g,
        Err(_) => panic!("lock must succeed"),
    };
    assert!(!guard.unlock(true).poisoned);
    assert!(!m.is_poisoned());
    assert!(m.try_lock(false).is_ok());
}

#[test]
fn get_mut_reaches_the_data_and_reports_poison() {
    let mut m = Mutex::new(vec![1, 2, 3]);
    match m.get_mut() {
        Ok(data) => data.push(4),
        Err(_) => panic!("a fresh mutex is clean"),
    }
    match m.get_mut() {
        Ok(data) => assert_eq!(*data, vec![1, 2, 3, 4]),
        Err(_) => panic!("still clean"),
    }
    match m.try_lock(false) {
        Ok(g) => {
            g.unlock(true);
        }
        Err(_) => panic!("lock must succeed"),
    }
    match m.get_mut() {
        Ok(_) => panic!("poisoned now"),
        Err(mut err) => {
            err.get_mut().push(5);
            assert_eq!(**err.get_ref(), vec![1, 2, 3, 4, 5]);
        }
    }
}

#[test]
fn spinning_on_a_free_mutex_settles_at_once() {
    let m = Mutex::new(1u8);
    match m.spin_round(SpinState::start()) {
        SpinOutcome::Settled { word, spins_left } => {
            assert_eq!(word, UNLOCKED);
            assert_eq!(spins_left, 400);
        }
        SpinOutcome::Refreshed(_) => panic!("nothing changed hands"),
    }
}

#[test]
fn spinning_sees_a_new_epoch_then_runs_out_of_spins() {
    let m = Mutex::new(1u8);
    let guard = match m.lock_fast_path(false) {
        Some(Ok(g)) => g,
        _ => panic!("lock must succeed"),
    };
    // The fast path counted one acquisition, so a fresh spinner sees epoch 1.
    let now = match m.spin_round(SpinState::start()) {
        SpinOutcome::Refreshed(now) => now,
        SpinOutcome::Settled { .. } => panic!("the epoch moved"),
    };
    assert_eq!(now, 1);
    match m.spin_round(SpinState::after_refresh(now)) {
        SpinOutcome::Settled { word, spins_left } => {
            assert_eq!(word, LOCKED);
            assert_eq!(spins_left, 0);
        }
        SpinOutcome::Refreshed(_) => panic!("the epoch stays"),
    }
    guard.unlock(false);
}

#[test]
fn try_lock_does_not_count_an_epoch() {
    let m = Mutex::new(1u8);
    let guard = match m.try_lock(false) {
        Ok(g) => g,
        Err(_) => panic!("lock must succeed"),
    };
    match m.spin_round(SpinState { spin: 3, epoch: 0, pause_first: false }) {
        SpinOutcome::Settled { word, spins_left } => {
            assert_eq!(word, LOCKED);
            assert_eq!(spins_left, 0);
        }
        SpinOutcome::Refreshed(_) => panic!("try_lock leaves the epoch"),
    }
    guard.unlock(false);
}

#[test]
fn a_contended_round_on_a_free_lock_wins_and_leaves_it_contended() {
    let m = Mutex::new(0u64);
    let guard = match m.lock_contended_round(UNLOCKED, false) {
        Some(Ok(g)) => g,
        _ => panic!("the swap finds the lock free"),
    };
    let unlocked = guard.unlock(false);
    assert_eq!(unlocked.released, CONTENDED);
    assert_eq!(unlocked.woken, 1);
}

#[test]
fn a_round_past_extra_contention_only_waits() {
    let m = Mutex::new(0u64);
    let guard = match m.try_lock(false) {
        Ok(g) => g,
        Err(_) => panic!("lock must succeed"),
    };
    // The word is LOCKED, so waiting for EXTRA_CONTENDED returns at once.
    assert!(m.lock_contended_round(7, false).is_none());
    assert!(m.lock_contended_round(3, false).is_none());
    let unlocked = guard.unlock(false);
    assert_eq!(unlocked.released, LOCKED);
    assert_eq!(unlocked.woken, 0);
}

#[test]
fn a_round_with_no_spin_left_after_its_pause_cannot_refresh() {
    let m = Mutex::new(1u8);
    let guard = match m.lock_fast_path(false) {
        Some(Ok(g)) => g,
        _ => panic!("lock must succeed"),
    };
    // The epoch moved to 1, but the pause spends the only spin first.
    match m.spin_round(SpinState { spin: 1, epoch: 0, pause_first: true }) {
        SpinOutcome::Settled { word, spins_left } => {
            assert_eq!(word, LOCKED);
            assert_eq!(spins_left, 0);
        }
        SpinOutcome::Refreshed(_) => panic!("no spin was left to refresh"),
    }
    guard.unlock(false);
}

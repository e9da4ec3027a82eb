use k_lock::poison::try_lock_result;
use k_lock::poison::mark_to_store;
use k_lock::poison::lock_result;
use k_lock::poison::map_result;
use k_lock::poison::poisons;
use k_lock::poison::Flag;
use k_lock::poison::Guard;
use k_lock::PoisonError;
use k_lock::TryLockError;

#[test]
fn lock_results_carry_the_guard_either_way() {
    assert_eq!(lock_result(7, false).ok(), Some(7));
    match lock_result(7, true) {
        Ok(_) => panic!("poisoned"),
        Err(e) => assert_eq!(e.into_inner(), 7),
    }
}

#[test]
fn map_result_keeps_poison() {
    assert_eq!(map_result(lock_result(3, false), |x| x * 2).ok(), Some(6));
    match map_result(lock_result(3, true), |x| x + 1) {
        Ok(_) => panic!("poisoned"),
        Err(e) => assert_eq!(*e.get_ref(), 4),
    }
}

#[test]
fn only_a_newly_panicking_holder_poisons() {
    assert!(!poisons(&Guard { panicking: false }, false));
    assert!(poisons(&Guard { panicking: false }, true));
    assert!(!poisons(&Guard { panicking: true }, true));
    assert!(!poisons(&Guard { panicking: true }, false));
}

#[test]
fn the_flag_stays_poisoned() {
    let flag = Flag::new();
    assert!(!flag.get());
    assert!(flag.borrow().is_ok());
    let g = match flag.guard(false) {
        Ok(g) => g,
        Err(_) => panic!("clean"),
    };
    assert!(!flag.done(&g, false));
    assert!(!flag.get());
    let g = match flag.guard(false) {
        Ok(g) => g,
        Err(_) => panic!("clean"),
    };
    assert!(flag.done(&g, true));
    assert!(flag.get());
    let g = match flag.guard(true) {
        Ok(_) => panic!("poisoned"),
        Err(e) => e.into_inner(),
    };
    assert_eq!(g, Guard { panicking: true });
    assert!(!flag.done(&g, false));
    assert!(flag.get());
    assert!(flag.borrow().is_err());
}

#[test]
fn poison_errors_become_try_lock_errors() {
    let e: TryLockError<u8> = TryLockError::from(PoisonError::new(9u8));
    match e {
        TryLockError::Poisoned(p) => assert_eq!(p.into_inner(), 9),
        TryLockError::WouldBlock => panic!("poison stays poison"),
    }
}

#[test]
fn try_lock_results_follow_what_was_won() {
    assert!(matches!(try_lock_result::<u8>(None), Err(TryLockError::WouldBlock)));
    assert_eq!(try_lock_result(Some(lock_result(4u8, false))).ok(), Some(4));
    match try_lock_result(Some(lock_result(4u8, true))) {
        Err(TryLockError::Poisoned(e)) => assert_eq!(e.into_inner(), 4),
        _ => panic!("a poisoned win reports poison"),
    }
}

#[test]
fn only_a_poisoning_release_stores_into_the_mark() {
    assert_eq!(mark_to_store(&Guard { panicking: false }, true), Some(true));
    assert_eq!(mark_to_store(&Guard { panicking: false }, false), None);
    assert_eq!(mark_to_store(&Guard { panicking: true }, true), None);
}

//! The mutex: a futex word, an epoch counter, a poison mark and the data.
use crate::atomics::cell_get_mut;
use crate::atomics::new_cell;
use crate::atomics::ordering;
use crate::atomics::spin_loop_hint;
use crate::atomics::wait;
use crate::atomics::wake_one;
use crate::futex::acquire_epoch_order;
use crate::futex::contended_plan;
use crate::futex::spin_load_order;
use crate::futex::spin_settles;
use crate::futex::spin_settles_spec;
use crate::futex::spin_step;
use crate::futex::release_word;
use crate::futex::take_exchange;
use crate::futex::SpinStep;
use crate::futex::swap_outcome;
use crate::futex::wakes_after_release;
use crate::futex::wakes_after_release_spec;
use crate::futex::ContendedOutcome;
use crate::futex::ContendedPlan;
use crate::futex::MemoryOrder;
use crate::futex::SpinOutcome;
use crate::futex::SpinState;
use crate::futex::CONTENDED;
use crate::futex::UNLOCKED;
use crate::futex::contended_plan_spec;
use crate::futex::release_word_spec;
use crate::futex::take_exchange_spec;
use crate::witness::exchange_word;
use crate::witness::swap_word;
use crate::witness::MarkRead;
use crate::witness::MarkStore;
use crate::witness::WordExchange;
use crate::witness::WordSwap;
use crate::witness::Won;
use std::sync::atomic::AtomicBool;
use crate::poison::lock_result_guard;
use crate::poison::PoisonError;
use crate::poison::poisons_spec;
use crate::poison::try_lock_result;
use crate::poison::Flag;
use crate::poison::Guard;
use crate::poison::LockResult;
use crate::poison::TryLockError;
use crate::poison::TryLockResult;
use std::cell::UnsafeCell;
use std::sync::atomic::AtomicU32;
use vstd::prelude::*;

verus! {

/// A mutual exclusion primitive useful for protecting shared data.
///
/// The lock word `futex` is unlocked (0), locked (1), contended (2) or extra
/// contended (3); `lock_epoch` counts acquisitions, so that spinning threads can
/// tell that the lock is making progress; `poison` is set when a holder panics.
#[verifier::reject_recursive_types(T)]
pub struct Mutex<T: ?Sized> {
    futex: AtomicU32,
    lock_epoch: AtomicU32,
    poison: Flag,
    data: UnsafeCell<T>,
}

/// A holding of a [`Mutex`]: the lock it holds, and what poisoning needs.
///
/// This guard has no `Drop`: dropping it keeps the lock held. Its holder gives
/// the lock back with [`MutexGuard::unlock`], handing in whether the thread is
/// panicking then; the RAII guard that unlocks on drop wraps this one and
/// makes that call.
#[verifier::reject_recursive_types(T)]
pub struct MutexGuard<'a, T: ?Sized + 'a> {
    lock: &'a Mutex<T>,
    poison: Guard,
    won: Won,
    mark: MarkRead,
}

/// What giving back a lock did.
pub struct Unlocked {
    /// Whether this release marked the lock poisoned.
    pub poisoned: bool,
    /// The futex word that the release swapped out.
    pub released: u32,
    /// How many passes the release's wake loop made, each of which calls the
    /// futex wake once: `wakes_after_release` of the released word. That each
    /// pass makes the call is plain from the code; no contract can observe it.
    pub woken: u32,
    /// The release swap of the futex word.
    pub release: WordSwap,
    /// The store into the poison mark that the release made, if any.
    pub poison_store: Option<MarkStore>,
}

impl<'a, T: ?Sized> MutexGuard<'a, T> {
    /// The mutex that this guard holds.
    pub closed spec fn mutex(self) -> &'a Mutex<T> {
        self.lock
    }

    /// Whether the holding thread was panicking when it took the lock.
    pub closed spec fn was_panicking(self) -> bool {
        self.poison.panicking
    }

    /// The step that took the lock for this guard.
    pub closed spec fn won(self) -> Won {
        self.won
    }

    /// The read of the poison mark made when the lock was taken.
    pub closed spec fn mark_read(self) -> MarkRead {
        self.mark
    }

    /// A guard on `lock`, taken by a thread whose panicking state was `panicking`.
    pub open spec fn holds(self, lock: &Mutex<T>, panicking: bool) -> bool {
        &&& self.mutex() == lock
        &&& self.was_panicking() == panicking
    }

    /// The guard was made by a step on its own mutex's futex word that found
    /// it unlocked and stored a held value, and by a read of its own mutex's
    /// poison mark.
    pub open spec fn taken(self) -> bool {
        &&& self.won().on() == self.mutex().futex_word()
        &&& self.won().stored() != UNLOCKED
        &&& self.mark_read().on() == self.mutex().poison_mark()
    }

    /// The mark read when the lock was taken said poisoned.
    pub open spec fn saw_poison(self) -> bool {
        self.mark_read().value()
    }

    /// Makes the guard of a lock just won by `won`, reading the lock's poison
    /// mark: poisoned exactly when the mark read set.
    pub(crate) fn new(lock: &'a Mutex<T>, won: Won, panicking: bool) -> (r: LockResult<Self>)
        requires
            won.on() == lock.futex_word(),
            won.stored() != UNLOCKED,
        ensures
            lock_result_guard(r).holds(lock, panicking),
            lock_result_guard(r).taken(),
            lock_result_guard(r).won() == won,
            r is Err <==> lock_result_guard(r).saw_poison(),
            r matches Err(e) ==> e.mark_seen() == Some(lock_result_guard(r).mark_read()),
    {
        let mark = lock.poison.read();
        let poisoned = mark.read_value();
        let guard = MutexGuard { lock, poison: Guard { panicking }, won, mark };
        if poisoned {
            let seen = guard.mark;
            Err(PoisonError::from_mark(guard, seen))
        } else {
            Ok(guard)
        }
    }

    /// Every guard was taken on its own mutex.
    #[verifier::type_invariant]
    spec fn inv(self) -> bool {
        self.taken()
    }

    /// The cell of the protected data. Only the holder of the lock may reach
    /// into it.
    pub fn data_cell(&self) -> (cell: &'a UnsafeCell<T>)
        ensures
            cell == self.mutex().cell(),
    {
        &self.lock.data
    }

    /// Gives the lock back: marks it poisoned if the thread started panicking
    /// while it held it, unlocks the word, and wakes as many sleepers as the
    /// word it swapped out calls for.
    pub fn unlock(self, panicking_now: bool) -> (r: Unlocked)
        ensures
            r.poisoned == poisons_spec(Guard { panicking: self.was_panicking() }, panicking_now),
            r.poisoned <==> r.poison_store is Some,
            r.poison_store matches Some(st) ==> st.on() == self.mutex().poison_mark() && st.value(),
            r.release.on() == self.mutex().futex_word(),
            r.release.on() == self.won().on(),
            r.release.stored() == release_word_spec(),
            r.release.found() == r.released,
            r.woken == wakes_after_release_spec(r.released),
    {
        proof {
            use_type_invariant(&self);
        }
        let lock = self.lock;
        let poison_store = lock.poison.finish(&self.poison, panicking_now);
        let poisoned = poison_store.is_some();
        let release = swap_word(&lock.futex, release_word(), MemoryOrder::Release);
        let released = release.found_value();
        let wakes = wakes_after_release(released);
        let mut woken: u32 = 0;
        while woken < wakes
            invariant
                woken <= wakes,
            decreases wakes - woken,
        {
            wake_one(&lock.futex);
            woken = woken + 1;
        }
        Unlocked { poisoned, released, woken, release, poison_store }
    }
}

/// `res` hands out a guard on `lock` for a thread whose panicking state was
/// `panicking`, taken by a step on `lock`'s futex word that found it unlocked
/// and stored `stored` (by a compare-exchange exactly when `by_exchange`); it
/// reports poison exactly when the mark read when the
/// lock was taken said so, and the report carries that read.
pub open spec fn took<'a, T: ?Sized>(
    res: LockResult<MutexGuard<'a, T>>,
    lock: &Mutex<T>,
    panicking: bool,
    stored: u32,
    by_exchange: bool,
) -> bool {
    let g = lock_result_guard(res);
    &&& g.holds(lock, panicking)
    &&& g.taken()
    &&& g.won().stored() == stored
    &&& g.won().by_exchange() == by_exchange
    &&& (res is Err <==> g.saw_poison())
    &&& (res matches Err(e) ==> e.mark_seen() == Some(g.mark_read()))
}

impl<T> Mutex<T> {
    /// Creates a new mutex in an unlocked state ready for use.
    pub fn new(data: T) -> Self {
        Mutex {
            data: new_cell(data),
            lock_epoch: AtomicU32::new(0),
            poison: Flag::new(),
            futex: AtomicU32::new(UNLOCKED),
        }
    }
}

impl<T: ?Sized> Mutex<T> {
    /// The atomic that holds the futex word.
    pub closed spec fn futex_word(&self) -> AtomicU32 {
        self.futex
    }

    /// The atomic that holds the poison mark.
    pub closed spec fn poison_mark(&self) -> AtomicBool {
        self.poison.mark()
    }

    /// The cell that holds the protected data.
    pub closed spec fn cell(&self) -> &UnsafeCell<T> {
        &self.data
    }

    /// Attempts to acquire this lock without blocking.
    ///
    /// `WouldBlock` when the lock is held elsewhere; otherwise the guard,
    /// reported as poisoned if an earlier holder panicked. `panicking` is whether
    /// the calling thread is panicking.
    pub fn try_lock(&self, panicking: bool) -> (r: TryLockResult<MutexGuard<'_, T>>)
        ensures
            match r {
                Ok(g) => took(Ok(g), self, panicking, take_exchange_spec().new, true),
                Err(TryLockError::Poisoned(e)) => took(Err(e), self, panicking, take_exchange_spec().new, true),
                Err(TryLockError::WouldBlock) => true,
            },
    {
        let exchange = exchange_word(&self.futex, take_exchange());
        try_lock_result(self.guard_if_won(exchange, panicking))
    }

    /// What the compare-exchange of the word from unlocked to locked hands out:
    /// the guard (with the poison mark) when it won the lock, nothing otherwise.
    fn guard_if_won(&self, exchange: WordExchange, panicking: bool) -> (r: Option<
        LockResult<MutexGuard<'_, T>>,
    >)
        requires
            exchange.on() == self.futex_word(),
            exchange.exchange() == take_exchange_spec(),
            match exchange.result() {
                Ok(found) => found == UNLOCKED,
                Err(found) => found != UNLOCKED,
            },
        ensures
            r is Some <==> exchange.result() is Ok,
            r matches Some(res) ==> took(res, self, panicking, take_exchange_spec().new, true),
    {
        match exchange.won() {
            Some(won) => Some(MutexGuard::new(self, won, panicking)),
            None => None,
        }
    }

    /// The first step of `lock`: one attempt to take an unlocked lock, which
    /// also counts the acquisition in the epoch. `None` when the lock is held
    /// elsewhere, and the caller goes on to the contended path.
    pub fn lock_fast_path(&self, panicking: bool) -> (r: Option<LockResult<MutexGuard<'_, T>>>)
        ensures
            r matches Some(res) ==> took(res, self, panicking, take_exchange_spec().new, true),
    {
        let exchange = exchange_word(&self.futex, take_exchange());
        if exchange.succeeded() {
            self.lock_epoch.fetch_add(1, ordering(MemoryOrder::Relaxed));
        }
        self.guard_if_won(exchange, panicking)
    }

    /// One round of spinning from `state`: reads the futex word (relaxed while
    /// more than 200 spins are left, acquiring after) until it is not plainly
    /// locked or the spins run out, and stops early when the lock epoch shows
    /// that the lock changed hands.
    pub fn spin_round(&self, state: SpinState) -> (r: SpinOutcome)
        requires
            state.wf(),
        ensures
            match r {
                SpinOutcome::Settled { word, spins_left } => {
                    &&& spin_settles_spec(spins_left, word)
                    &&& spins_left <= state.spin
                    &&& state.pause_first ==> spins_left < state.spin
                },
                SpinOutcome::Refreshed(now) => {
                    &&& now != state.epoch
                    &&& state.spin > (if state.pause_first { 1u32 } else { 0u32 })
                },
            },
    {
        let mut spin = state.spin;
        if state.pause_first {
            spin_loop_hint();
            spin = spin - 1;
        }
        loop
            invariant
                spin <= state.spin,
                state.pause_first ==> spin < state.spin,
            decreases spin,
        {
            let order = spin_load_order(spin);
            let word = self.futex.load(ordering(order));
            if spin_settles(spin, word) {
                return SpinOutcome::Settled { word, spins_left: spin };
            }
            let now = self.lock_epoch.load(ordering(order));
            match spin_step(spin, state.epoch, now) {
                SpinStep::Refresh(epoch) => {
                    return SpinOutcome::Refreshed(epoch);
                },
                SpinStep::Continue(next) => {
                    spin_loop_hint();
                    spin = next;
                },
            }
        }
    }

    /// One round of the contended path, from the lock state that spinning left:
    /// swaps a contended value into the word as [`contended_plan`] says, and
    /// either wins the lock (counting it in the epoch) or sleeps on the word
    /// while it holds the value that the plan and the swap call for. `None` when
    /// the round ends without the lock; the caller spins again.
    pub fn lock_contended_round(&self, state: u32, panicking: bool) -> (r: Option<
        LockResult<MutexGuard<'_, T>>,
    >)
        ensures
            r is Some ==> state <= CONTENDED,
            r matches Some(res) ==> {
                &&& contended_plan_spec(state) == ContendedPlan::SwapIn(
                    lock_result_guard(res).won().stored(),
                )
                &&& took(res, self, panicking, lock_result_guard(res).won().stored(), false)
            },
    {
        match contended_plan(state) {
            ContendedPlan::SwapIn(target) => {
                let swap = swap_word(&self.futex, target, MemoryOrder::Acquire);
                match swap_outcome(target, swap.found_value()) {
                    ContendedOutcome::Acquired => {
                        let order = acquire_epoch_order(state);
                        self.lock_epoch.fetch_add(1, ordering(order));
                    },
                    ContendedOutcome::Wait(expected) => {
                        wait(&self.futex, expected);
                    },
                }
                self.guard_if_swap_won(swap, panicking)
            },
            ContendedPlan::Wait(expected) => {
                wait(&self.futex, expected);
                None
            },
        }
    }

    /// What a contended-path swap hands out, from the word it swapped out: the
    /// guard (with the poison mark) when the word was unlocked, nothing
    /// otherwise.
    fn guard_if_swap_won(&self, swap: WordSwap, panicking: bool) -> (r: Option<
        LockResult<MutexGuard<'_, T>>,
    >)
        requires
            swap.on() == self.futex_word(),
            swap.stored() != UNLOCKED,
        ensures
            r is Some <==> swap.found() == UNLOCKED,
            r matches Some(res) ==> took(res, self, panicking, swap.stored(), false),
    {
        match swap.won() {
            Some(won) => Some(MutexGuard::new(self, won, panicking)),
            None => None,
        }
    }

    /// Whether an earlier holder panicked while holding the lock.
    pub fn is_poisoned(&self) -> bool {
        self.poison.get()
    }

    /// Returns a mutable reference to the underlying data, reported as poisoned
    /// if an earlier holder panicked. The exclusive borrow of the mutex rules out
    /// every holding, so no locking takes place.
    pub fn get_mut(&mut self) -> (r: LockResult<&mut T>)
        ensures
            r matches Err(e) ==> (e.mark_seen() matches Some(m) && m.on()
                == old(self).poison_mark() && m.value()),
    {
        let seen = self.poison.read();
        let data = cell_get_mut(&mut self.data);
        if seen.read_value() {
            Err(PoisonError::from_mark(data, seen))
        } else {
            Ok(data)
        }
    }
}

} // verus!

//! The decisions that the lock takes about its futex word.
//!
//! Each function here is pure: it takes what an atomic operation observed and
//! says what the lock does next. The exact specification of each is an open
//! spec function, which [`crate::protocol`] reuses to prove the word protocol.
use vstd::prelude::*;

verus! {

/// Nobody holds the lock.
pub const UNLOCKED: u32 = 0;

/// The lock is held and nobody is known to wait for it.
pub const LOCKED: u32 = 1;

/// The lock is held and at least one thread may be waiting for it.
pub const CONTENDED: u32 = 2;

/// The lock is held and several threads may be waiting for it.
pub const EXTRA_CONTENDED: u32 = 3;

/// How many futex loads a spinning thread makes before it gives up, counted
/// from the last time it saw the lock change hands.
pub const SPIN_BUDGET: u32 = 400;

/// While more spins than this are left, the spinning loads are relaxed.
pub const RELAXED_SPINS_ABOVE: u32 = 200;

/// A value that the lock ever stores into its futex word.
pub open spec fn is_lock_word(word: u32) -> bool {
    word <= EXTRA_CONTENDED
}

/// A value that says that waiters may be asleep on the futex word.
pub open spec fn is_contended(word: u32) -> bool {
    word == CONTENDED || word == EXTRA_CONTENDED
}

/// The memory orderings that the lock uses on its atomics.
#[derive(PartialEq, Eq, Structural, Clone, Copy, Debug)]
pub enum MemoryOrder {
    Relaxed,
    Acquire,
    Release,
}

/// What a thread on the contended path does with the state that spinning left it.
#[derive(PartialEq, Eq, Structural, Clone, Copy, Debug)]
pub enum ContendedPlan {
    /// Swap this value into the word; the lock is won if the word was unlocked.
    SwapIn(u32),
    /// Do not touch the word; sleep while it still holds this value.
    Wait(u32),
}

/// What a thread on the contended path learns from its swap.
#[derive(PartialEq, Eq, Structural, Clone, Copy, Debug)]
pub enum ContendedOutcome {
    /// The word was unlocked: the thread now holds the lock.
    Acquired,
    /// The lock is held elsewhere: sleep while the word still holds this value.
    Wait(u32),
}

/// The compare-exchange that takes a free lock: the value it expects, and the
/// value it stores.
#[derive(PartialEq, Eq, Structural, Clone, Copy, Debug)]
pub struct Exchange {
    pub current: u32,
    pub new: u32,
}

pub open spec fn take_exchange_spec() -> Exchange {
    Exchange { current: UNLOCKED, new: LOCKED }
}

/// The exchange that `try_lock` and the first step of `lock` make: from
/// unlocked to plainly locked.
pub fn take_exchange() -> (e: Exchange)
    ensures
        e == take_exchange_spec(),
{
    Exchange { current: UNLOCKED, new: LOCKED }
}

pub open spec fn release_word_spec() -> u32 {
    UNLOCKED
}

/// The word that an unlock swaps into the futex.
pub fn release_word() -> (word: u32)
    ensures
        word == release_word_spec(),
{
    UNLOCKED
}

pub open spec fn contended_plan_spec(state: u32) -> ContendedPlan {
    if state < CONTENDED {
        ContendedPlan::SwapIn(CONTENDED)
    } else if state == CONTENDED {
        ContendedPlan::SwapIn(EXTRA_CONTENDED)
    } else {
        ContendedPlan::Wait(EXTRA_CONTENDED)
    }
}

/// Chooses the contended-path step for the lock state that spinning observed.
///
/// A thread that locks under contention must leave the word contended, or a
/// release could miss the waiters: it swaps in `CONTENDED`, or `EXTRA_CONTENDED`
/// when the word already says `CONTENDED`; past that it only waits.
pub fn contended_plan(state: u32) -> (plan: ContendedPlan)
    ensures
        plan == contended_plan_spec(state),
{
    if state < CONTENDED {
        ContendedPlan::SwapIn(CONTENDED)
    } else if state == CONTENDED {
        ContendedPlan::SwapIn(EXTRA_CONTENDED)
    } else {
        ContendedPlan::Wait(EXTRA_CONTENDED)
    }
}

pub open spec fn swap_outcome_spec(installed: u32, previous: u32) -> ContendedOutcome {
    if previous == UNLOCKED {
        ContendedOutcome::Acquired
    } else {
        ContendedOutcome::Wait(installed)
    }
}

/// Reads the result of swapping `installed` into the word, which held `previous`.
pub fn swap_outcome(installed: u32, previous: u32) -> (outcome: ContendedOutcome)
    ensures
        outcome == swap_outcome_spec(installed, previous),
{
    if previous == UNLOCKED {
        ContendedOutcome::Acquired
    } else {
        ContendedOutcome::Wait(installed)
    }
}

pub open spec fn wakes_after_release_spec(released: u32) -> u32 {
    if released == CONTENDED {
        1
    } else if released == EXTRA_CONTENDED {
        2
    } else {
        0
    }
}

/// How many waiters an unlock wakes, given the word that it swapped out.
pub fn wakes_after_release(released: u32) -> (wakes: u32)
    ensures
        wakes == wakes_after_release_spec(released),
{
    if released == CONTENDED {
        1
    } else if released == EXTRA_CONTENDED {
        2
    } else {
        0
    }
}

pub open spec fn acquire_epoch_order_spec(state: u32) -> MemoryOrder {
    if state == CONTENDED {
        MemoryOrder::Release
    } else {
        MemoryOrder::Relaxed
    }
}

/// The ordering of the epoch increment after a contended acquisition that
/// started from `state`.
pub fn acquire_epoch_order(state: u32) -> (order: MemoryOrder)
    ensures
        order == acquire_epoch_order_spec(state),
{
    if state == CONTENDED {
        MemoryOrder::Release
    } else {
        MemoryOrder::Relaxed
    }
}

pub open spec fn spin_load_order_spec(spin: u32) -> MemoryOrder {
    if RELAXED_SPINS_ABOVE < spin {
        MemoryOrder::Relaxed
    } else {
        MemoryOrder::Acquire
    }
}

/// The ordering of the spinning loads when `spin` spins are left.
pub fn spin_load_order(spin: u32) -> (order: MemoryOrder)
    ensures
        order == spin_load_order_spec(spin),
{
    if RELAXED_SPINS_ABOVE < spin {
        MemoryOrder::Relaxed
    } else {
        MemoryOrder::Acquire
    }
}

pub open spec fn spin_settles_spec(spin: u32, observed: u32) -> bool {
    observed != LOCKED || spin == 0
}

/// Whether spinning stops at a futex word of `observed` with `spin` spins left:
/// it stops as soon as the lock is not plainly locked, or the budget is spent.
pub fn spin_settles(spin: u32, observed: u32) -> (settles: bool)
    ensures
        settles == spin_settles_spec(spin, observed),
{
    observed != LOCKED || spin == 0
}

} // verus!

verus! {

/// Where a spinning thread stands between two rounds of spinning.
#[derive(PartialEq, Eq, Structural, Clone, Copy, Debug)]
pub struct SpinState {
    /// Spins left before the thread gives up.
    pub spin: u32,
    /// The lock epoch that the thread last saw.
    pub epoch: u32,
    /// Whether the round starts by finishing a spin (a pause and a decrement),
    /// as it does after a refresh.
    pub pause_first: bool,
}

impl SpinState {
    /// A state that a round can start from: a pending pause has a spin to use.
    pub open spec fn wf(self) -> bool {
        self.pause_first ==> self.spin > 0
    }

    /// The state of a thread that starts to spin: a full budget, epoch zero.
    pub fn start() -> (s: SpinState)
        ensures
            s == (SpinState { spin: SPIN_BUDGET, epoch: 0, pause_first: false }),
            s.wf(),
    {
        SpinState { spin: SPIN_BUDGET, epoch: 0, pause_first: false }
    }

    /// The state after the thread saw the epoch move to `now` (and yielded):
    /// the budget is refilled, and the spin in progress is finished first.
    pub fn after_refresh(now: u32) -> (s: SpinState)
        ensures
            s == (SpinState { spin: SPIN_BUDGET, epoch: now, pause_first: true }),
            s.wf(),
    {
        SpinState { spin: SPIN_BUDGET, epoch: now, pause_first: true }
    }
}

/// What a spin that did not settle does with the epoch that it read.
#[derive(PartialEq, Eq, Structural, Clone, Copy, Debug)]
pub enum SpinStep {
    /// The lock changed hands: refresh with this epoch.
    Refresh(u32),
    /// Spin again with this many spins left.
    Continue(u32),
}

pub open spec fn spin_step_spec(spin: u32, epoch: u32, now: u32) -> SpinStep {
    if now != epoch {
        SpinStep::Refresh(now)
    } else {
        SpinStep::Continue((spin - 1) as u32)
    }
}

/// The rest of a spin that did not settle (so a spin is left), having last
/// seen epoch `epoch` and now reading `now`: it refreshes when the epoch
/// moved, else spends one spin.
pub fn spin_step(spin: u32, epoch: u32, now: u32) -> (s: SpinStep)
    requires
        spin > 0,
    ensures
        s == spin_step_spec(spin, epoch, now),
{
    if now != epoch {
        SpinStep::Refresh(now)
    } else {
        SpinStep::Continue(spin - 1)
    }
}

/// How a round of spinning ended.
#[derive(PartialEq, Eq, Structural, Clone, Copy, Debug)]
pub enum SpinOutcome {
    /// Spinning is over: `word` is the futex word last read, with `spins_left`
    /// spins unused.
    Settled { word: u32, spins_left: u32 },
    /// The lock changed hands (its epoch moved to this value): the thread
    /// yields and spins on with a fresh budget.
    Refreshed(u32),
}

} // verus!

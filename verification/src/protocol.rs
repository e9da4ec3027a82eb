//! The futex word protocol, proved.
//!
//! [`LockModel`] abstracts one mutex: its futex word, and the threads around it
//! counted by what they are doing. Its steps mirror the atomic steps of
//! [`crate::Mutex`] and are written with the same specifications that the
//! verified functions of [`crate::futex`] meet (the exchange, the swap plans and
//! outcomes, the release word, the wake counts). That correspondence holds by
//! construction: no contract ties the real atomics to the model, whose values
//! nothing here can observe. Over every run of steps from a fresh lock, the
//! model keeps [`LockModel::inv`]: at most one holder, and no sleeper is ever
//! left without a thread that will wake it.
use crate::futex::contended_plan_spec;
use crate::futex::is_contended;
use crate::futex::is_lock_word;
use crate::futex::release_word_spec;
use crate::futex::take_exchange_spec;
use crate::futex::swap_outcome_spec;
use crate::futex::wakes_after_release_spec;
use crate::futex::ContendedOutcome;
use crate::futex::ContendedPlan;
use crate::futex::UNLOCKED;
use vstd::prelude::*;

verus! {

/// One mutex as the protocol sees it.
pub ghost struct LockModel {
    /// The futex word.
    pub word: u32,
    /// Threads that hold the lock.
    pub holders: nat,
    /// Threads on the contended path that are awake: spinning, swapping, or
    /// about to sleep.
    pub contenders: nat,
    /// Threads asleep on the futex word.
    pub sleepers: nat,
}

/// One atomic step of one thread.
pub ghost enum ProtocolStep {
    /// A compare-exchange of the word from unlocked to locked (`try_lock`, or
    /// the first step of `lock`). When it fails and `contend` is set, the
    /// thread goes on to the contended path.
    TryAcquire { contend: bool },
    /// An awake contender acts on the state that its spinning observed, as
    /// [`crate::futex::contended_plan`] says.
    Contend { state: u32 },
    /// An awake contender asks the kernel to sleep while the word is `expected`.
    Sleep { expected: u32 },
    /// A sleeper returns from the futex without being woken.
    SpuriousWake,
    /// The holder unlocks: it swaps the word to unlocked and wakes as many
    /// sleepers as [`crate::futex::wakes_after_release`] says.
    Release,
}

/// The lock as [`crate::Mutex::new`] makes it.
pub open spec fn fresh() -> LockModel {
    LockModel { word: UNLOCKED, holders: 0, contenders: 0, sleepers: 0 }
}

pub open spec fn min(a: nat, b: nat) -> nat {
    if a <= b {
        a
    } else {
        b
    }
}

impl LockModel {
    /// The protocol invariant.
    pub open spec fn inv(self) -> bool {
        &&& is_lock_word(self.word)
        &&& self.holders <= 1
        &&& (self.holders == 0 <==> self.word == UNLOCKED)
        &&& (self.sleepers > 0 ==> is_contended(self.word) || self.contenders > 0)
    }

    /// Whether a thread can take `step` now.
    pub open spec fn enabled(self, step: ProtocolStep) -> bool {
        match step {
            ProtocolStep::TryAcquire { .. } => true,
            ProtocolStep::Contend { .. } => self.contenders > 0,
            ProtocolStep::Sleep { expected } => self.contenders > 0 && is_contended(expected),
            ProtocolStep::SpuriousWake => self.sleepers > 0,
            ProtocolStep::Release => self.holders > 0,
        }
    }

    /// Whether `step` gives its thread the lock.
    pub open spec fn acquires(self, step: ProtocolStep) -> bool {
        match step {
            ProtocolStep::TryAcquire { .. } => self.word == take_exchange_spec().current,
            ProtocolStep::Contend { state } => match contended_plan_spec(state) {
                ContendedPlan::SwapIn(target) => swap_outcome_spec(target, self.word)
                    == ContendedOutcome::Acquired,
                ContendedPlan::Wait(_) => false,
            },
            _ => false,
        }
    }

    /// The lock after `step`.
    pub open spec fn next(self, step: ProtocolStep) -> LockModel {
        match step {
            ProtocolStep::TryAcquire { contend } => {
                if self.word == take_exchange_spec().current {
                    LockModel { word: take_exchange_spec().new, holders: self.holders + 1, ..self }
                } else if contend {
                    LockModel { contenders: self.contenders + 1, ..self }
                } else {
                    self
                }
            },
            ProtocolStep::Contend { state } => match contended_plan_spec(state) {
                ContendedPlan::SwapIn(target) => match swap_outcome_spec(target, self.word) {
                    ContendedOutcome::Acquired => LockModel {
                        word: target,
                        holders: self.holders + 1,
                        contenders: (self.contenders - 1) as nat,
                        ..self
                    },
                    ContendedOutcome::Wait(_) => LockModel { word: target, ..self },
                },
                ContendedPlan::Wait(_) => self,
            },
            ProtocolStep::Sleep { expected } => {
                if self.word == expected {
                    LockModel {
                        contenders: (self.contenders - 1) as nat,
                        sleepers: self.sleepers + 1,
                        ..self
                    }
                } else {
                    self
                }
            },
            ProtocolStep::SpuriousWake => LockModel {
                contenders: self.contenders + 1,
                sleepers: (self.sleepers - 1) as nat,
                ..self
            },
            ProtocolStep::Release => {
                let woken = min(wakes_after_release_spec(self.word) as nat, self.sleepers);
                LockModel {
                    word: release_word_spec(),
                    holders: (self.holders - 1) as nat,
                    contenders: self.contenders + woken,
                    sleepers: (self.sleepers - woken) as nat,
                }
            },
        }
    }
}

/// The lock after a run of steps, or `None` if some step was not enabled.
pub open spec fn run(start: LockModel, steps: Seq<ProtocolStep>) -> Option<LockModel>
    decreases steps.len(),
{
    if steps.len() == 0 {
        Some(start)
    } else {
        match run(start, steps.drop_last()) {
            Some(m) => if m.enabled(steps.last()) {
                Some(m.next(steps.last()))
            } else {
                None
            },
            None => None,
        }
    }
}

/// A fresh lock satisfies the protocol invariant.
pub proof fn lemma_fresh_inv()
    ensures
        fresh().inv(),
{
}

/// Every step keeps the protocol invariant.
pub proof fn lemma_step_keeps_inv(m: LockModel, step: ProtocolStep)
    requires
        m.inv(),
        m.enabled(step),
    ensures
        m.next(step).inv(),
{
}

/// Mutual exclusion: a step gives its thread the lock only when nobody holds
/// it, and no step leaves two holders.
pub proof fn lemma_acquire_only_when_free(m: LockModel, step: ProtocolStep)
    requires
        m.inv(),
        m.enabled(step),
    ensures
        m.acquires(step) ==> m.holders == 0 && m.next(step).holders == 1,
        !m.acquires(step) ==> m.next(step).holders <= m.holders,
{
}

/// Every run of steps from a fresh lock keeps the protocol invariant, so it
/// never has more than one holder.
pub proof fn lemma_runs_keep_inv(steps: Seq<ProtocolStep>)
    ensures
        run(fresh(), steps) matches Some(m) ==> m.inv() && m.holders <= 1,
    decreases steps.len(),
{
    if steps.len() > 0 {
        lemma_runs_keep_inv(steps.drop_last());
        if let Some(m) = run(fresh(), steps.drop_last()) {
            if m.enabled(steps.last()) {
                lemma_step_keeps_inv(m, steps.last());
            }
        }
    }
}

/// No lost wakeup: while a thread sleeps and no contender is awake, the lock is
/// held and the holder's release wakes at least one sleeper.
pub proof fn lemma_sleepers_are_woken(m: LockModel)
    requires
        m.inv(),
        m.sleepers > 0,
        m.contenders == 0,
    ensures
        m.holders == 1,
        wakes_after_release_spec(m.word) >= 1,
        m.next(ProtocolStep::Release).contenders >= 1,
{
}

/// A thread on the contended path only ever installs, and only ever waits on,
/// a contended word: the value its release will read as a call to wake.
pub proof fn lemma_contenders_keep_word_contended(state: u32, previous: u32)
    ensures
        match contended_plan_spec(state) {
            ContendedPlan::SwapIn(target) => {
                &&& is_contended(target)
                &&& (swap_outcome_spec(target, previous) matches ContendedOutcome::Wait(e)
                    ==> e == target)
            },
            ContendedPlan::Wait(expected) => is_contended(expected),
        },
{
}

} // verus!

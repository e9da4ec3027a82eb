//! Poisoning: a lock whose holder panicked reports it to every later holder.
//!
//! A guard remembers whether its thread was already panicking when it took the
//! lock; if the thread is panicking when the guard is given back, and was not
//! before, the lock is marked poisoned for good. Whether the current thread is
//! panicking is read by the caller and handed in as a plain `bool`.
use std::sync::atomic::AtomicBool;
use crate::witness::read_mark;
use crate::witness::store_mark;
use crate::witness::MarkRead;
use crate::witness::MarkStore;
use vstd::prelude::*;

verus! {

/// The poison mark of one lock.
pub struct Flag {
    failed: AtomicBool,
}

/// What a lock holder remembers for poisoning: whether its thread was already
/// panicking when it took the lock.
#[derive(PartialEq, Eq, Structural, Clone, Copy, Debug)]
pub struct Guard {
    pub panicking: bool,
}

/// A lock was taken, but an earlier holder panicked while holding it. The
/// error still carries what the caller asked for.
pub struct PoisonError<T> {
    guard: T,
    seen: Option<MarkRead>,
}

/// Why a `try_lock` did not hand out the lock cleanly.
pub enum TryLockError<T> {
    /// The lock was taken, but it is poisoned.
    Poisoned(PoisonError<T>),
    /// The lock is held elsewhere; nothing was taken.
    WouldBlock,
}

/// A result that also reports poisoning.
pub type LockResult<G> = Result<G, PoisonError<G>>;

/// The result of a `try_lock`.
pub type TryLockResult<G> = Result<G, TryLockError<G>>;

impl<T> PoisonError<T> {
    /// What the error carries.
    pub closed spec fn inner(self) -> T {
        self.guard
    }

    /// The read of a poison mark that this error reports, when a lock made it.
    pub closed spec fn mark_seen(self) -> Option<MarkRead> {
        self.seen
    }

    /// The poison report of a lock whose mark read `seen` (set).
    pub(crate) fn from_mark(guard: T, seen: MarkRead) -> (err: PoisonError<T>)
        requires
            seen.value(),
        ensures
            err.inner() == guard,
            err.mark_seen() == Some(seen),
    {
        PoisonError { guard, seen: Some(seen) }
    }

    /// Wraps what the caller asked for into a poison report.
    pub fn new(guard: T) -> (err: PoisonError<T>)
        ensures
            err.inner() == guard,
    {
        PoisonError { guard, seen: None }
    }

    /// Gives back what the error carries.
    pub fn into_inner(self) -> (guard: T)
        ensures
            guard == self.inner(),
    {
        self.guard
    }

    /// Borrows what the error carries.
    pub fn get_ref(&self) -> (guard: &T)
        ensures
            *guard == self.inner(),
    {
        &self.guard
    }

    /// Borrows what the error carries, mutably.
    pub fn get_mut(&mut self) -> (guard: &mut T)
        ensures
            *guard == old(self).inner(),
            final(self).inner() == *final(guard),
    {
        &mut self.guard
    }
}

impl<T> From<PoisonError<T>> for TryLockError<T> {
    fn from(err: PoisonError<T>) -> (r: Self) {
        TryLockError::Poisoned(err)
    }
}

impl<T> vstd::std_specs::convert::FromSpecImpl<PoisonError<T>> for TryLockError<T> {
    open spec fn obeys_from_spec() -> bool {
        true
    }

    open spec fn from_spec(v: PoisonError<T>) -> Self {
        TryLockError::Poisoned(v)
    }
}

/// What a lock result hands out, poisoned or not.
pub open spec fn lock_result_guard<G>(r: LockResult<G>) -> G {
    match r {
        Ok(g) => g,
        Err(e) => e.inner(),
    }
}

/// Reports `guard` as poisoned or clean.
pub fn lock_result<G>(guard: G, poisoned: bool) -> (r: LockResult<G>)
    ensures
        r is Err <==> poisoned,
        lock_result_guard(r) == guard,
{
    if poisoned {
        Err(PoisonError::new(guard))
    } else {
        Ok(guard)
    }
}

pub open spec fn try_lock_result_spec<G>(won: Option<LockResult<G>>) -> TryLockResult<G> {
    match won {
        None => Err(TryLockError::WouldBlock),
        Some(Ok(g)) => Ok(g),
        Some(Err(e)) => Err(TryLockError::Poisoned(e)),
    }
}

/// The result of a `try_lock`, from what its attempt won: `WouldBlock` when it
/// won nothing, else the lock result, clean or poisoned.
pub fn try_lock_result<G>(won: Option<LockResult<G>>) -> (r: TryLockResult<G>)
    ensures
        r == try_lock_result_spec(won),
{
    match won {
        None => Err(TryLockError::WouldBlock),
        Some(Ok(g)) => Ok(g),
        Some(Err(e)) => Err(TryLockError::from(e)),
    }
}

/// Applies `f` to what a lock result hands out, keeping whether it was poisoned.
pub fn map_result<T, U, F: FnOnce(T) -> U>(result: LockResult<T>, f: F) -> (r: LockResult<U>)
    requires
        f.requires((lock_result_guard(result),)),
    ensures
        r is Err <==> result is Err,
        f.ensures((lock_result_guard(result),), lock_result_guard(r)),
{
    match result {
        Ok(t) => Ok(f(t)),
        Err(e) => {
            let guard = e.into_inner();
            Err(PoisonError::new(f(guard)))
        },
    }
}

pub open spec fn poisons_spec(guard: Guard, panicking_now: bool) -> bool {
    !guard.panicking && panicking_now
}

/// Whether giving back a lock taken under `guard` poisons it: exactly when the
/// thread started panicking while it held the lock.
pub fn poisons(guard: &Guard, panicking_now: bool) -> (poisoned: bool)
    ensures
        poisoned == poisons_spec(*guard, panicking_now),
{
    !guard.panicking && panicking_now
}

/// The poison mark after a holding taken under `guard` ends, the thread
/// panicking then or not as `panicking_now` says.
pub open spec fn mark_after_done(failed: bool, guard: Guard, panicking_now: bool) -> bool {
    failed || poisons_spec(guard, panicking_now)
}

/// The poison mark after a sequence of holdings ends, each given as its guard
/// and whether the thread was panicking when it gave the lock back.
pub open spec fn mark_after(failed: bool, holdings: Seq<(Guard, bool)>) -> bool
    decreases holdings.len(),
{
    if holdings.len() == 0 {
        failed
    } else {
        mark_after_done(
            mark_after(failed, holdings.drop_last()),
            holdings.last().0,
            holdings.last().1,
        )
    }
}

/// Poisoning is permanent, and a holder that starts panicking poisons the lock:
/// after a sequence of holdings the mark is set if it was set before any prefix
/// of them, or if any holding in it poisons. Every acquisition after that is
/// reported as poisoned (see [`lock_result`]).
pub proof fn lemma_poison_is_permanent(failed: bool, holdings: Seq<(Guard, bool)>, i: int)
    requires
        0 <= i <= holdings.len(),
    ensures
        mark_after(failed, holdings.take(i)) ==> mark_after(failed, holdings),
        i < holdings.len() && poisons_spec(holdings[i].0, holdings[i].1) ==> mark_after(
            failed,
            holdings,
        ),
    decreases holdings.len(),
{
    if holdings.len() > 0 {
        if i < holdings.len() {
            let rest = holdings.drop_last();
            lemma_poison_is_permanent(failed, rest, i);
            assert(rest.take(i) =~= holdings.take(i));
            if i < rest.len() {
                assert(rest[i] == holdings[i]);
            }
        } else {
            assert(holdings.take(i) =~= holdings);
        }
    }
}

pub open spec fn mark_to_store_spec(guard: Guard, panicking_now: bool) -> Option<bool> {
    if poisons_spec(guard, panicking_now) {
        Some(true)
    } else {
        None
    }
}

/// What ending a holding under `guard` stores into the poison mark: `true`
/// when it poisons, nothing otherwise. The mark is never cleared.
pub fn mark_to_store(guard: &Guard, panicking_now: bool) -> (v: Option<bool>)
    ensures
        v == mark_to_store_spec(*guard, panicking_now),
{
    if poisons(guard, panicking_now) {
        Some(true)
    } else {
        None
    }
}

impl Flag {
    /// The atomic that holds the mark.
    pub closed spec fn mark(&self) -> AtomicBool {
        self.failed
    }

    /// A clean mark.
    pub fn new() -> Flag {
        Flag { failed: AtomicBool::new(false) }
    }

    /// Reads the mark. It is shared between threads, so what it reads is not
    /// modelled; the record says which mark was read.
    pub fn read(&self) -> (m: MarkRead)
        ensures
            m.on() == self.mark(),
    {
        read_mark(&self.failed)
    }

    /// Whether the lock is poisoned. The mark is shared between threads, so
    /// what it reads is not modelled.
    pub fn get(&self) -> bool {
        self.read().read_value()
    }

    /// Reports the poison mark as a result that carries nothing.
    pub fn borrow(&self) -> (r: LockResult<()>) {
        let poisoned = self.get();
        lock_result((), poisoned)
    }

    /// Starts a holding: the guard records `panicking`, the result reports the
    /// mark as it reads now.
    pub fn guard(&self, panicking: bool) -> (r: LockResult<Guard>)
        ensures
            lock_result_guard(r) == (Guard { panicking }),
    {
        let ret = Guard { panicking };
        let poisoned = self.get();
        lock_result(ret, poisoned)
    }

    /// Ends a holding: stores what [`mark_to_store`] says into this mark, and
    /// returns the record of the store, if it made one.
    pub(crate) fn finish(&self, guard: &Guard, panicking_now: bool) -> (s: Option<MarkStore>)
        ensures
            s is Some <==> poisons_spec(*guard, panicking_now),
            s matches Some(st) ==> st.on() == self.mark() && st.value(),
    {
        match mark_to_store(guard, panicking_now) {
            Some(v) => Some(store_mark(&self.failed, v)),
            None => None,
        }
    }

    /// Ends a holding: stores what [`mark_to_store`] says into the mark, and
    /// returns whether it marked the lock poisoned.
    pub fn done(&self, guard: &Guard, panicking_now: bool) -> (marked: bool)
        ensures
            marked == poisons_spec(*guard, panicking_now),
    {
        self.finish(guard, panicking_now).is_some()
    }
}

} // verus!

//! The calls that leave verified code: the std calls whose results the
//! contracts need, the std cell that holds the data, and the futex system calls
//! of `atomic_wait`.
use crate::futex::MemoryOrder;
use std::cell::UnsafeCell;
use std::sync::atomic::AtomicU32;
use std::sync::atomic::Ordering;
use vstd::prelude::*;

verus! {

/// `std::cell::UnsafeCell`, the storage of the protected data. Opaque here.
#[verifier::external_type_specification]
#[verifier::external_body]
#[verifier::reject_recursive_types(T)]
pub struct ExUnsafeCell<T: ?Sized>(UnsafeCell<T>);

/// The std ordering that a [`MemoryOrder`] names.
pub fn ordering(order: MemoryOrder) -> (r: Ordering)
    ensures
        match order {
            MemoryOrder::Relaxed => r == Ordering::Relaxed,
            MemoryOrder::Acquire => r == Ordering::Acquire,
            MemoryOrder::Release => r == Ordering::Release,
        },
{
    match order {
        MemoryOrder::Relaxed => Ordering::Relaxed,
        MemoryOrder::Acquire => Ordering::Acquire,
        MemoryOrder::Release => Ordering::Release,
    }
}

/// Calls `AtomicU32::compare_exchange` of std with an acquiring success and a
/// relaxed failure ordering. As std documents it, the result is `Ok` with the
/// previous value exactly when that value was `current` (and `new` was stored),
/// and `Err` with the value found otherwise: the contract claims the first half
/// of that, on the value returned. What the atomic holds is not modelled.
#[verifier::external_body]
pub(crate) fn compare_exchange_acquire(atomic: &AtomicU32, current: u32, new: u32) -> (r: Result<
    u32,
    u32,
>)
    ensures
        match r {
            Ok(previous) => previous == current,
            Err(found) => found != current,
        },
{
    atomic.compare_exchange(current, new, Ordering::Acquire, Ordering::Relaxed)
}

/// Calls `atomic_wait::wake_one`: a futex wake of one thread sleeping on
/// `atomic`. It returns nothing and never panics; nothing is claimed.
#[verifier::external_body]
pub(crate) fn wake_one(atomic: &AtomicU32) {
    atomic_wait::wake_one(atomic)
}

/// Calls `atomic_wait::wait`: if `atomic` still holds `value`, sleep until woken
/// (or spuriously woken); otherwise return at once. It returns nothing, and how
/// long it blocks rests on other threads; nothing is claimed.
#[verifier::external_body]
pub(crate) fn wait(atomic: &AtomicU32, value: u32) {
    atomic_wait::wait(atomic, value)
}

/// Calls `std::hint::spin_loop`, a processor hint inside busy-wait loops.
/// It has no effect that the program can observe; nothing is claimed.
#[verifier::external_body]
pub(crate) fn spin_loop_hint() {
    std::hint::spin_loop()
}

/// Calls `UnsafeCell::new` of std, which wraps `value`. The cell is opaque
/// here, so nothing is claimed of it.
#[verifier::external_body]
pub(crate) fn new_cell<T>(value: T) -> UnsafeCell<T> {
    UnsafeCell::new(value)
}

/// Calls `UnsafeCell::get_mut` of std: the exclusive borrow of the cell gives
/// an exclusive borrow of its contents. The cell is opaque here, so nothing is
/// claimed of the contents.
#[verifier::external_body]
pub(crate) fn cell_get_mut<T: ?Sized>(cell: &mut UnsafeCell<T>) -> &mut T {
    cell.get_mut()
}

} // verus!

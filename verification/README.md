# k_lock

A futex-based mutex for brief critical sections, with its lock-word protocol
verified by Verus.

- `src/futex.rs` — the lock word's states and every decision the lock takes
  about them (what to swap in under contention, when a swap wins, what to sleep
  on, how many waiters an unlock wakes, how spinning orders its loads and when
  it stops), each with an exact specification.
- `src/mutex.rs` — `Mutex` and `MutexGuard`: each atomic step of locking,
  spinning and unlocking, built on those decisions. This `MutexGuard` has no
  `Drop`; its holder calls `unlock`, which the RAII guard in `app/` does on drop.
- `src/poison.rs` — poisoning: guards, the poison mark, `PoisonError`,
  `TryLockError`.
- `src/protocol.rs` — a model of one lock and the threads around it, whose
  steps use the same specifications; proofs that every run from a fresh lock
  has at most one holder and never strands a sleeping waiter, and that the
  contended path keeps the word contended. The model mirrors the mutex's
  atomic steps by construction; no contract ties the real atomics to it.
- `src/atomics.rs` — the trusted calls: a compare-exchange, the futex wait and
  wake of `atomic_wait`, the spin hint, and the data cell.
- `app/lib.rs` — the blocking `lock` loops, the RAII guard (`Deref`, `Drop`),
  and the std traits of a mutex shared between threads.

//! A futex-based mutual exclusion primitive tuned for brief critical sections.
//!
//! The lock word of a [`Mutex`] walks through four states (unlocked, locked,
//! contended, extra contended). Every decision that the lock takes about that
//! word is a verified function in [`futex`]. [`protocol`] proves, of a model
//! whose steps are written with the same specifications, that the word
//! protocol gives mutual exclusion and never strands a sleeping waiter; the
//! model mirrors the mutex's atomic steps by construction, which is not proved.
//! What the real steps did is stated through [`witness`]: each guard carries
//! the record of the step on its own mutex's word that found it unlocked, and
//! of the poison mark it read; each unlock report, the record of its release.

mod atomics;
pub mod futex;
pub mod mutex;
pub mod poison;
pub mod protocol;
pub mod witness;








pub use mutex::Mutex;
pub use mutex::MutexGuard;
pub use poison::LockResult;
pub use poison::PoisonError;
pub use poison::TryLockError;
pub use poison::TryLockResult;

//! Records of the atomic steps that the lock takes on its own words.
//!
//! The values that std atomics hold are not modelled, so a contract cannot say
//! what a word holds. What it can say is what a step did: each record here
//! names the atomic it acted on, what it stored there and what it found, and
//! only the verified function that makes the step can build one. A guard holds
//! the record of the step that took the lock and of the poison mark it read;
//! an unlock report holds the record of its release. The contracts of
//! [`crate::Mutex`] are stated over these records.
use crate::atomics::compare_exchange_acquire;
use crate::atomics::ordering;
use crate::futex::Exchange;
use crate::futex::MemoryOrder;
use crate::futex::UNLOCKED;
use std::sync::atomic::AtomicBool;
use std::sync::atomic::AtomicU32;
use vstd::prelude::*;

verus! {

/// A swap of a futex word: the word, the value stored, the value found.
#[derive(Clone, Copy)]
pub struct WordSwap {
    word: Ghost<AtomicU32>,
    stored: u32,
    found: u32,
}

/// A compare-exchange of a futex word: the word, the exchange asked for, and
/// what it returned.
pub struct WordExchange {
    word: Ghost<AtomicU32>,
    exchange: Exchange,
    result: Result<u32, u32>,
}

/// A step that took a lock: a swap or compare-exchange of the futex word that
/// found it unlocked. It records the word and the value the step stored.
#[derive(Clone, Copy)]
pub struct Won {
    word: Ghost<AtomicU32>,
    stored: u32,
    exchanged: bool,
}

/// A load of a poison mark: the mark, and the value read.
#[derive(Clone, Copy)]
pub struct MarkRead {
    mark: Ghost<AtomicBool>,
    value: bool,
}

/// A store into a poison mark: the mark, and the value stored.
#[derive(Clone, Copy)]
pub struct MarkStore {
    mark: Ghost<AtomicBool>,
    value: bool,
}

impl WordSwap {
    pub closed spec fn on(self) -> AtomicU32 {
        self.word@
    }

    pub closed spec fn stored(self) -> u32 {
        self.stored
    }

    pub closed spec fn found(self) -> u32 {
        self.found
    }

    /// The value that the swap found.
    pub fn found_value(&self) -> (v: u32)
        ensures
            v == self.found(),
    {
        self.found
    }

    /// The lock that the swap took, if it found the word unlocked.
    pub fn won(self) -> (w: Option<Won>)
        ensures
            w is Some <==> self.found() == UNLOCKED,
            w matches Some(won) ==> won.on() == self.on() && won.stored() == self.stored()
                && !won.by_exchange(),
    {
        if self.found == UNLOCKED {
            Some(Won { word: self.word, stored: self.stored, exchanged: false })
        } else {
            None
        }
    }
}

impl WordExchange {
    pub closed spec fn on(self) -> AtomicU32 {
        self.word@
    }

    pub closed spec fn exchange(self) -> Exchange {
        self.exchange
    }

    pub closed spec fn result(self) -> Result<u32, u32> {
        self.result
    }

    /// Whether the exchange stored its new value.
    pub fn succeeded(&self) -> (ok: bool)
        ensures
            ok == self.result() is Ok,
    {
        self.result.is_ok()
    }

    /// The lock that the exchange took, if it found the word unlocked.
    pub fn won(self) -> (w: Option<Won>)
        ensures
            w is Some <==> self.result() == Ok::<u32, u32>(UNLOCKED),
            w matches Some(won) ==> won.on() == self.on() && won.stored() == self.exchange().new
                && won.by_exchange(),
    {
        match self.result {
            Ok(found) => {
                if found == UNLOCKED {
                    Some(Won { word: self.word, stored: self.exchange.new, exchanged: true })
                } else {
                    None
                }
            },
            Err(_) => None,
        }
    }
}

impl Won {
    pub closed spec fn on(self) -> AtomicU32 {
        self.word@
    }

    pub closed spec fn stored(self) -> u32 {
        self.stored
    }

    /// Whether the step was a compare-exchange (rather than a swap).
    pub closed spec fn by_exchange(self) -> bool {
        self.exchanged
    }
}

impl MarkRead {
    pub closed spec fn on(self) -> AtomicBool {
        self.mark@
    }

    pub closed spec fn value(self) -> bool {
        self.value
    }

    /// The value read.
    pub fn read_value(&self) -> (v: bool)
        ensures
            v == self.value(),
    {
        self.value
    }
}

impl MarkStore {
    pub closed spec fn on(self) -> AtomicBool {
        self.mark@
    }

    pub closed spec fn value(self) -> bool {
        self.value
    }
}

/// Swaps `new` into the futex word `atomic` with the given ordering.
pub(crate) fn swap_word(atomic: &AtomicU32, new: u32, order: MemoryOrder) -> (s: WordSwap)
    ensures
        s.on() == *atomic,
        s.stored() == new,
{
    let found = atomic.swap(new, ordering(order));
    WordSwap { word: Ghost(*atomic), stored: new, found }
}

/// Makes `exchange` on the futex word `atomic` (acquiring on success).
pub(crate) fn exchange_word(atomic: &AtomicU32, exchange: Exchange) -> (x: WordExchange)
    ensures
        x.on() == *atomic,
        x.exchange() == exchange,
        match x.result() {
            Ok(found) => found == exchange.current,
            Err(found) => found != exchange.current,
        },
{
    let result = compare_exchange_acquire(atomic, exchange.current, exchange.new);
    WordExchange { word: Ghost(*atomic), exchange, result }
}

/// Loads the poison mark `mark` (relaxed).
pub(crate) fn read_mark(mark: &AtomicBool) -> (m: MarkRead)
    ensures
        m.on() == *mark,
{
    let value = mark.load(ordering(MemoryOrder::Relaxed));
    MarkRead { mark: Ghost(*mark), value }
}

/// Stores `value` into the poison mark `mark` (relaxed).
pub(crate) fn store_mark(mark: &AtomicBool, value: bool) -> (m: MarkStore)
    ensures
        m.on() == *mark,
        m.value() == value,
{
    mark.store(value, ordering(MemoryOrder::Relaxed));
    MarkStore { mark: Ghost(*mark), value }
}

} // verus!

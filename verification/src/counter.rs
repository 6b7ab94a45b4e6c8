//! The counter itself: one unsigned 32-bit value kept in a single
//! instance-storage entry under a fixed key. An entry that was never
//! written reads as zero; every mutating call writes the new value back.

use vstd::prelude::*;

verus! {

/// Name of the fixed instance-storage entry that holds the counter.
pub const COUNTER_KEY: &'static str = "COUNTER";

/// When a mutating call runs and the entry has fewer ledger-time units of
/// life left than this threshold, its time-to-live is extended.
pub const TTL_THRESHOLD: u32 = 50;

/// The ceiling a mutating call extends the entry's time-to-live to.
pub const TTL_EXTEND_TO: u32 = 100;

/// The value a storage entry denotes: an entry that was never written
/// reads as zero.
pub open spec fn stored_value(entry: Option<u32>) -> u32 {
    match entry {
        Some(v) => v,
        None => 0,
    }
}

/// Top of the representable counter range.
pub open spec fn counter_max() -> int {
    u32::MAX as int
}

/// The value after one increment: one more, saturating at the top of the
/// range. The stored width forces a choice at `u32::MAX`; this library
/// saturates there, so the call stays total and the value stays put.
pub open spec fn increment_result(v: int) -> int {
    if v < counter_max() {
        v + 1
    } else {
        v
    }
}

/// The value after one decrement: one less, floored at zero.
pub open spec fn decrement_result(v: int) -> int {
    if 0 < v {
        v - 1
    } else {
        0
    }
}

/// The one instance-storage slot the contract owns, as a call sees it:
/// either no entry has been written yet, or the entry holds the counter.
/// The host hands the current entry to each call and persists what the
/// call leaves behind; `from_entry` and `entry` are that boundary.
pub struct CounterStorage {
    entry: Option<u32>,
}

impl View for CounterStorage {
    type V = Option<u32>;

    closed spec fn view(&self) -> Option<u32> {
        self.entry
    }
}

impl CounterStorage {
    /// The counter this slot denotes: an unset slot reads as zero.
    pub open spec fn value(&self) -> u32 {
        stored_value(self@)
    }

    /// A fresh slot: nothing has been written yet.
    pub fn new() -> (s: Self)
        ensures
            s@ == Option::<u32>::None,
    {
        CounterStorage { entry: None }
    }

    /// A slot holding the entry read from the host's storage.
    pub fn from_entry(entry: Option<u32>) -> (s: Self)
        ensures
            s@ == entry,
    {
        CounterStorage { entry }
    }

    /// The entry as it stands, ready to be persisted.
    pub fn entry(&self) -> (e: Option<u32>)
        ensures
            e == self@,
    {
        self.entry
    }
}

/// The contract: four entry points over the one counter slot. The host
/// invokes each atomically; a mutating call's write is what the host
/// persists (and whose time-to-live it extends) when the call commits.
pub struct IncrementContract;

impl IncrementContract {
    /// Increment the counter by one and return the new value, writing it
    /// back to the slot. At `u32::MAX` the value saturates and stays put.
    pub fn increment(storage: &mut CounterStorage) -> (count: u32)
        ensures
            count as int == increment_result(old(storage).value() as int),
            final(storage)@ == Some(count),
    {
        let current: u32 = match storage.entry {
            Some(v) => v,
            None => 0,
        };
        let count: u32 = if current < u32::MAX {
            current + 1
        } else {
            current
        };
        storage.entry = Some(count);
        count
    }

    /// Read the current value of the counter without modifying the slot.
    pub fn get_current_value(storage: &CounterStorage) -> (count: u32)
        ensures
            count == storage.value(),
    {
        match storage.entry {
            Some(v) => v,
            None => 0,
        }
    }

    /// Decrement the counter by one and return the new value, writing it
    /// back to the slot. A counter already at zero remains zero, so the
    /// value never goes negative.
    pub fn decrement(storage: &mut CounterStorage) -> (count: u32)
        ensures
            count as int == decrement_result(old(storage).value() as int),
            final(storage)@ == Some(count),
    {
        let current: u32 = match storage.entry {
            Some(v) => v,
            None => 0,
        };
        let count: u32 = if current > 0 {
            current - 1
        } else {
            0
        };
        storage.entry = Some(count);
        count
    }

    /// Reset the counter to zero, write zero to the slot, and return it.
    pub fn reset(storage: &mut CounterStorage) -> (count: u32)
        ensures
            count == 0,
            final(storage)@ == Some(0u32),
    {
        storage.entry = Some(0);
        0
    }
}

} // verus!

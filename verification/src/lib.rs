//! A minimal smart-contract counter: one persisted unsigned 32-bit value
//! with four entry points — increment, decrement floored at zero, reset,
//! and a read — each verified against a contract over the storage slot it
//! acts on.

pub mod counter;
pub mod laws;

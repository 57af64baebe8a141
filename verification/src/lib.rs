//! Per-account unsigned counters with four authenticated transitions.
//!
//! The library keeps one `u32` counter for each account identifier and
//! exposes four operations on it: `set_number`, `remove_number`,
//! `increase_number` and `decrease_number`. Each operation demands a signed
//! origin, mutates the counter map, and appends exactly one event to the
//! transaction's event log. An account with no entry reads as zero.

pub mod laws;
pub mod pallet;
pub mod store;

//! Lazily loaded, cached storage cells over a flat key-addressed store,
//! together with the key allocator that lays composite values out over
//! non-overlapping storage slots, and an in-process environment (accounts,
//! calls, blocks, events) for running contracts against such storage.

pub mod key;
pub mod key_ptr;
pub mod entry;
pub mod storable;
pub mod storage;
pub mod lazy_cell;
pub mod off_chain;

//! A reputation store for a Soroban contract: one score per identity, set by
//! an administrator and read by anyone.
//!
//! The table of records is a dictionary of the host, kept whole in one slot
//! of the contract's instance storage. The library works on the slot's
//! content in hand: its caller reads the slot, asks the authorization oracle
//! and the ledger clock, calls an operation with what they said, and writes
//! the slot back after a write that went through.
//!
//! `contract` holds the three operations, `table` the steps they are made
//! of and the model they are stated over, `record` the record and the cap
//! on its score, `host` the calls into the host's dictionary, and `laws`
//! what holds of writes and reads taken together.
//!
//! The library is built for the SDK's native host with the feature
//! `testutils`, which lends it the host's own conversions: they report a
//! value of the wrong shape where the environment's conversions abort.

pub mod contract;
pub mod host;
pub mod laws;
pub mod record;
pub mod table;

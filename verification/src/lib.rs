//! Periodic consolidation of unspent outputs.
//!
//! For each configured ledger the engine gathers the unspent outputs that a
//! fixed set of keys controls, keeps those that are valuable and mature
//! enough, sweeps them into one transaction with a single output, has every
//! input signed by the key that owns it and hands the result over for
//! broadcast. Network access, key handling and signing are performed by the
//! caller; this crate holds the rules and the control flow, and proves them.

pub mod assemble;
pub mod collect;
pub mod cycle;
pub mod cycle_laws;
pub mod encoding;
pub mod filter;
pub mod scheduler;
pub mod sign;
pub mod types;

//! A concurrent counter with pluggable synchronization strategies and a
//! load-generating harness.
//!
//! The library centers on [`counter::SyncCounter`], a monotonically
//! incrementable unsigned counter that any number of threads may share
//! through handles to one underlying value, and the harness functions that
//! a thin driver strings together into a load run: configuration
//! validation, the per-worker increment loop, a concurrent observer, and
//! the settlement that accepts a run only with the exact expected total.

pub mod counter;
pub mod harness;
mod sys;

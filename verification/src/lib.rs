//! Batch-synchronization core for a collection of independent git working
//! copies found under one root directory.
//!
//! The library holds the orchestration logic: turning an enumeration of
//! candidate subdirectories into work items, classifying the staged outcome
//! of each per-repository fetch, scheduling the fetches either serially or
//! under a bounded worker count, and rendering one report line per outcome.
//! The I/O itself (directory listing, the git wire protocol, printing) is
//! left to a thin unverified driver around this crate.

use vstd::prelude::*;

pub mod config;
pub mod outcome;
pub mod plan;
pub mod report;
pub mod scheduler;
pub mod task;

verus! {

} // verus!

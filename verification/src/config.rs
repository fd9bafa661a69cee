//! Run configuration: the scheduling mode and the options fixed at run start.

use vstd::prelude::*;

verus! {

/// How fetch tasks are driven: one at a time in enumeration order, or
/// concurrently under a worker-count ceiling.
#[derive(Clone, Copy, Debug, PartialEq, Eq, Structural)]
pub enum ConcurrencyMode {
    /// One task at a time, to completion, in enumeration order.
    Serial,
    /// Up to `max_workers` tasks at once; `0` means "use the host default".
    Parallel { max_workers: usize },
}

/// Options fixed when a run starts and read-only for its lifetime: the
/// scheduling mode, the subdirectory search depth, and the root path under
/// which candidate repositories are enumerated.
pub struct RunConfiguration {
    pub mode: ConcurrencyMode,
    pub search_depth: usize,
    pub root_path: String,
}

/// The hard ceiling on concurrently running fetch tasks that a mode asks
/// for: `1` in serial mode, `max_workers` in parallel mode, and the host
/// default when `max_workers` is zero.
pub open spec fn spec_effective_workers(mode: ConcurrencyMode, host_default: usize) -> usize {
    match mode {
        ConcurrencyMode::Serial => 1,
        ConcurrencyMode::Parallel { max_workers } => if max_workers == 0 {
            host_default
        } else {
            max_workers
        },
    }
}

/// Computes the worker ceiling for a run. `host_default` is the host's
/// available parallelism, which is always at least one.
pub fn effective_workers(mode: &ConcurrencyMode, host_default: usize) -> (k: usize)
    requires
        host_default >= 1,
    ensures
        k == spec_effective_workers(*mode, host_default),
        k >= 1,
{
    match mode {
        ConcurrencyMode::Serial => 1,
        ConcurrencyMode::Parallel { max_workers } => {
            if *max_workers == 0 {
                host_default
            } else {
                *max_workers
            }
        },
    }
}

} // verus!

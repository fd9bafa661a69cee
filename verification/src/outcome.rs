//! Work items and the tagged outcome each fetch task terminates with.

use vstd::prelude::*;

verus! {

/// One candidate repository directory: its bare name (for reporting) and
/// its full filesystem path. Immutable; consumed by exactly one fetch task.
#[derive(Debug, PartialEq, Eq)]
pub struct WorkItem {
    pub name: String,
    pub path: String,
}

/// The terminal classification of one fetch task. Every variant carries the
/// originating work item's name so the report can attribute the line.
/// An outcome is produced exactly once per work item and never changes.
#[derive(Debug, Clone, PartialEq, Eq)]
pub enum FetchOutcome {
    /// The fetch completed; `ref_count` remote references were advertised.
    Success { name: String, ref_count: u64 },
    /// The path could not be opened as a repository.
    NotARepository { name: String, detail: String },
    /// The repository has no remote configured for the fetch direction.
    /// This is an expected configuration state, not an error of the run.
    NoRemoteConfigured { name: String },
    /// A remote reference exists but its configuration did not resolve.
    RemoteResolutionFailed { name: String, detail: String },
    /// Connecting, negotiating or transferring failed; an interrupted
    /// transfer surfaces here with an interruption-specific detail.
    FetchFailed { name: String, detail: String },
    /// Skipped: the stop signal came first, so nothing ran for this
    /// directory. The entry is reported anyway: every work item yields
    /// exactly one outcome.
    Cancelled { name: String },
}

impl FetchOutcome {
    /// The originating work item's name.
    pub open spec fn spec_name(self) -> Seq<char> {
        match self {
            FetchOutcome::Success { name, .. } => name@,
            FetchOutcome::NotARepository { name, .. } => name@,
            FetchOutcome::NoRemoteConfigured { name } => name@,
            FetchOutcome::RemoteResolutionFailed { name, .. } => name@,
            FetchOutcome::FetchFailed { name, .. } => name@,
            FetchOutcome::Cancelled { name } => name@,
        }
    }

    /// The work item name, for callers outside the proof.
    pub fn name(&self) -> (n: &String)
        ensures
            n@ == self.spec_name(),
    {
        match self {
            FetchOutcome::Success { name, .. } => name,
            FetchOutcome::NotARepository { name, .. } => name,
            FetchOutcome::NoRemoteConfigured { name } => name,
            FetchOutcome::RemoteResolutionFailed { name, .. } => name,
            FetchOutcome::FetchFailed { name, .. } => name,
            FetchOutcome::Cancelled { name } => name,
        }
    }

    /// True exactly on the `Success` variant.
    pub fn is_success(&self) -> (r: bool)
        ensures
            r == (*self is Success),
    {
        match self {
            FetchOutcome::Success { .. } => true,
            _ => false,
        }
    }
}

} // verus!

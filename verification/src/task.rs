//! One repository fetch task as a step-by-step state machine.
//!
//! The task itself performs no I/O. A driver runs the repository and network
//! operations (open the path as a repository, look up the default remote,
//! connect and receive) and reports each step's result here as plain values;
//! the task classifies them. The steps run strictly in sequence within one
//! task, every failure is converted into a [`FetchOutcome`], and nothing
//! escapes a task as a fault.

use vstd::prelude::*;

use crate::outcome::{FetchOutcome, WorkItem};

verus! {

/// What the driver learned when it asked for the repository's default
/// remote in the fetch direction.
#[derive(Debug, Clone, PartialEq, Eq)]
pub enum RemoteLookup {
    /// A remote is configured and its configuration resolved.
    Found,
    /// No remote is configured at all: an expected, non-exceptional state.
    Missing,
    /// A remote reference exists but failed to resolve (for example,
    /// malformed configuration).
    Invalid { detail: String },
}

/// Where one fetch task stands: which checked step it waits on, or the
/// terminal outcome it reached.
#[derive(Debug, Clone, PartialEq, Eq)]
pub enum TaskPhase {
    /// Waiting for the attempt to open the path as a repository.
    AwaitingOpen,
    /// Waiting for the default-remote lookup.
    AwaitingRemote,
    /// Waiting for the connect-negotiate-receive step.
    AwaitingTransfer,
    /// The task reached its single, immutable outcome.
    Terminal { outcome: FetchOutcome },
}

/// One per-repository fetch task. It owns its name and state exclusively;
/// no state is shared between tasks, so one task's failure cannot affect a
/// sibling's outcome.
#[derive(Debug)]
pub struct FetchTask {
    pub name: String,
    pub phase: TaskPhase,
}

impl FetchTask {
    /// A fresh task for one work item, waiting on the open step.
    pub fn new(item: &WorkItem) -> (t: FetchTask)
        ensures
            t.name@ == item.name@,
            t.phase is AwaitingOpen,
    {
        FetchTask { name: item.name.clone(), phase: TaskPhase::AwaitingOpen }
    }

    /// Step 1: the driver reports whether the path opened as a repository.
    /// A failure terminates the task as `NotARepository`, retaining the
    /// underlying message for diagnostics.
    pub fn on_open(&mut self, opened: Result<(), String>)
        requires
            old(self).phase is AwaitingOpen,
        ensures
            final(self).name@ == old(self).name@,
            match opened {
                Ok(u) => final(self).phase is AwaitingRemote,
                Err(detail) => final(self).phase matches TaskPhase::Terminal { outcome }
                    && outcome matches FetchOutcome::NotARepository { name, detail: d }
                    && name@ == old(self).name@ && d@ == detail@,
            },
    {
        match opened {
            Ok(_) => {
                self.phase = TaskPhase::AwaitingRemote;
            },
            Err(detail) => {
                self.phase = TaskPhase::Terminal {
                    outcome: FetchOutcome::NotARepository { name: self.name.clone(), detail },
                };
            },
        }
    }

    /// Step 2: the driver reports the default-remote lookup. A missing
    /// remote terminates the task as `NoRemoteConfigured`; a remote that
    /// fails to resolve terminates it as `RemoteResolutionFailed`.
    pub fn on_remote(&mut self, lookup: RemoteLookup)
        requires
            old(self).phase is AwaitingRemote,
        ensures
            final(self).name@ == old(self).name@,
            match lookup {
                RemoteLookup::Found => final(self).phase is AwaitingTransfer,
                RemoteLookup::Missing => final(self).phase matches TaskPhase::Terminal { outcome }
                    && outcome matches FetchOutcome::NoRemoteConfigured { name }
                    && name@ == old(self).name@,
                RemoteLookup::Invalid { detail } => final(self).phase matches TaskPhase::Terminal {
                    outcome,
                } && outcome matches FetchOutcome::RemoteResolutionFailed { name, detail: d }
                    && name@ == old(self).name@ && d@ == detail@,
            },
    {
        match lookup {
            RemoteLookup::Found => {
                self.phase = TaskPhase::AwaitingTransfer;
            },
            RemoteLookup::Missing => {
                self.phase = TaskPhase::Terminal {
                    outcome: FetchOutcome::NoRemoteConfigured { name: self.name.clone() },
                };
            },
            RemoteLookup::Invalid { detail } => {
                self.phase = TaskPhase::Terminal {
                    outcome: FetchOutcome::RemoteResolutionFailed {
                        name: self.name.clone(),
                        detail,
                    },
                };
            },
        }
    }

    /// Step 3: the driver reports the connect-negotiate-receive step: on
    /// success the number of remote references advertised, otherwise the
    /// failure detail (an interrupted transfer arrives here as a failure
    /// with an interruption-specific detail). Either way the task reaches
    /// its terminal outcome.
    pub fn on_transfer(&mut self, transferred: Result<u64, String>)
        requires
            old(self).phase is AwaitingTransfer,
        ensures
            final(self).name@ == old(self).name@,
            match transferred {
                Ok(ref_count) => final(self).phase matches TaskPhase::Terminal { outcome }
                    && outcome matches FetchOutcome::Success { name, ref_count: c }
                    && name@ == old(self).name@ && c == ref_count,
                Err(detail) => final(self).phase matches TaskPhase::Terminal { outcome }
                    && outcome matches FetchOutcome::FetchFailed { name, detail: d }
                    && name@ == old(self).name@ && d@ == detail@,
            },
    {
        match transferred {
            Ok(ref_count) => {
                self.phase = TaskPhase::Terminal {
                    outcome: FetchOutcome::Success { name: self.name.clone(), ref_count },
                };
            },
            Err(detail) => {
                self.phase = TaskPhase::Terminal {
                    outcome: FetchOutcome::FetchFailed { name: self.name.clone(), detail },
                };
            },
        }
    }

    /// True once the task has reached its terminal outcome.
    pub fn is_terminal(&self) -> (r: bool)
        ensures
            r == (self.phase is Terminal),
    {
        match &self.phase {
            TaskPhase::Terminal { .. } => true,
            _ => false,
        }
    }

    /// Hands the terminal outcome out of the task.
    pub fn into_outcome(self) -> (o: FetchOutcome)
        requires
            self.phase is Terminal,
        ensures
            self.phase matches TaskPhase::Terminal { outcome } && o == outcome,
    {
        match self.phase {
            TaskPhase::Terminal { outcome } => outcome,
            _ => vstd::pervasive::unreached(),
        }
    }
}

} // verus!

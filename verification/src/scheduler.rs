//! The execution scheduler: drives the set of fetch tasks either strictly
//! serially or under a hard worker-count ceiling, collecting exactly one
//! outcome per work item.
//!
//! The scheduler is a state machine (`Idle` before the work set is known,
//! `Running` while tasks are handed out and completed, `Drained` when every
//! outcome has been collected). A driver asks it for the next task with
//! [`Scheduler::acquire`], runs the task's repository and network work
//! elsewhere, and records the terminal outcome with [`Scheduler::complete`].
//! Task failures are fully isolated: recording one task's outcome touches no
//! other task's state. Cancellation is monotonic (set at most once, never
//! reset); after it is raised no further task starts, and tasks that never
//! started are reported as `Cancelled` when the scheduler is drained.

use vstd::prelude::*;

use vstd::pervasive::VecAdditionalExecFns;

use crate::config::{spec_effective_workers, effective_workers, ConcurrencyMode};
use crate::outcome::{FetchOutcome, WorkItem};

verus! {

/// The scheduler's record of one task: not yet handed out, handed out and
/// not yet terminal, or terminal with its outcome recorded.
#[derive(Clone, Copy, Debug, PartialEq, Eq, Structural)]
pub enum TaskState {
    NotStarted,
    InFlight,
    Done,
}

/// The scheduler's run-level state machine.
#[derive(Clone, Copy, Debug, PartialEq, Eq, Structural)]
pub enum SchedulerPhase {
    /// Before the work set is known.
    Idle,
    /// The work set is loaded and non-empty; tasks are being driven.
    Running,
    /// The (empty) work set needed no task at all.
    Drained,
}

/// A small integer standing for a task state's kind, so one counting
/// function serves all three kinds.
pub open spec fn state_kind(s: TaskState) -> int {
    match s {
        TaskState::NotStarted => 0,
        TaskState::InFlight => 1,
        TaskState::Done => 2,
    }
}

/// How many entries of `s` from position `from` on have kind `k`.
pub open spec fn count_kind_from(s: Seq<TaskState>, k: int, from: int) -> nat
    decreases s.len() - from,
{
    if from < 0 || from >= s.len() {
        0
    } else {
        (if state_kind(s[from]) == k {
            1nat
        } else {
            0nat
        }) + count_kind_from(s, k, from + 1)
    }
}

/// How many entries of `s` have kind `k`.
pub open spec fn count_kind(s: Seq<TaskState>, k: int) -> nat {
    count_kind_from(s, k, 0)
}

proof fn lemma_count_update(s: Seq<TaskState>, k: int, i: int, v: TaskState, from: int)
    requires
        0 <= from <= s.len(),
        0 <= i < s.len(),
    ensures
        count_kind_from(s.update(i, v), k, from) == if from <= i {
            count_kind_from(s, k, from) - (if state_kind(s[i]) == k {
                1int
            } else {
                0int
            }) + (if state_kind(v) == k {
                1int
            } else {
                0int
            })
        } else {
            count_kind_from(s, k, from) as int
        },
    decreases s.len() - from,
{
    if from < s.len() {
        lemma_count_update(s, k, i, v, from + 1);
    }
}

proof fn lemma_count_none(s: Seq<TaskState>, k: int, from: int)
    requires
        0 <= from <= s.len(),
        forall|i: int| from <= i < s.len() ==> state_kind(#[trigger] s[i]) != k,
    ensures
        count_kind_from(s, k, from) == 0,
    decreases s.len() - from,
{
    if from < s.len() {
        lemma_count_none(s, k, from + 1);
    }
}

proof fn lemma_count_at_least_one(s: Seq<TaskState>, k: int, i: int, from: int)
    requires
        0 <= from <= i < s.len(),
        state_kind(s[i]) == k,
    ensures
        count_kind_from(s, k, from) >= 1,
    decreases s.len() - from,
{
    if from < i {
        lemma_count_at_least_one(s, k, i, from + 1);
    }
}

proof fn lemma_count_zero_none(s: Seq<TaskState>, k: int, from: int)
    requires
        0 <= from <= s.len(),
        count_kind_from(s, k, from) == 0,
    ensures
        forall|i: int| from <= i < s.len() ==> state_kind(#[trigger] s[i]) != k,
    decreases s.len() - from,
{
    if from < s.len() {
        lemma_count_zero_none(s, k, from + 1);
    }
}

proof fn lemma_count_total(s: Seq<TaskState>, from: int)
    requires
        0 <= from <= s.len(),
    ensures
        count_kind_from(s, 0, from) + count_kind_from(s, 1, from) + count_kind_from(s, 2, from)
            == s.len() - from,
    decreases s.len() - from,
{
    if from < s.len() {
        lemma_count_total(s, from + 1);
    }
}

/// The execution scheduler. `order` is the ghost record of which task each
/// collected outcome belongs to: `order[j]` is the index of the task whose
/// outcome stands at `outcomes[j]`.
pub struct Scheduler {
    pub items: Vec<WorkItem>,
    pub states: Vec<TaskState>,
    pub outcomes: Vec<FetchOutcome>,
    pub order: Ghost<Seq<int>>,
    pub in_flight: usize,
    pub limit: usize,
    pub mode: ConcurrencyMode,
    pub cancelled: bool,
    pub phase: SchedulerPhase,
}

impl Scheduler {
    /// The counters agree with the per-task states, and the in-flight count
    /// never exceeds the worker ceiling.
    pub open spec fn counts_ok(self) -> bool {
        &&& self.states@.len() == self.items@.len()
        &&& self.limit >= 1
        &&& self.in_flight as nat == count_kind(self.states@, 1)
        &&& self.in_flight <= self.limit
        &&& self.outcomes@.len() == self.order@.len()
        &&& self.outcomes@.len() == count_kind(self.states@, 2)
    }

    /// Each collected outcome belongs to exactly one terminal task, no task
    /// is recorded twice, and every terminal task has its outcome recorded.
    pub open spec fn order_ok(self) -> bool {
        &&& forall|j: int|
            0 <= j < self.order@.len() ==> 0 <= #[trigger] self.order@[j] < self.states@.len()
        &&& forall|j: int|
            0 <= j < self.order@.len() ==> self.states@[#[trigger] self.order@[j]] is Done
        &&& forall|j: int|
            0 <= j < self.order@.len() ==> (#[trigger] self.outcomes@[j]).spec_name()
                == self.items@[self.order@[j]].name@
        &&& forall|j1: int, j2: int|
            0 <= j1 < j2 < self.order@.len() ==> self.order@[j1] != self.order@[j2]
        &&& forall|i: int|
            0 <= i < self.states@.len() && (#[trigger] self.states@[i]) is Done ==> exists|j: int|
                0 <= j < self.order@.len() && self.order@[j] == i
    }

    /// In serial mode the ceiling is one, outcomes stand in enumeration
    /// order, the terminal tasks form a prefix, and only the next task in
    /// order can be in flight.
    pub open spec fn serial_ok(self) -> bool {
        self.mode is Serial ==> {
            &&& self.limit == 1
            &&& forall|j: int| 0 <= j < self.order@.len() ==> #[trigger] self.order@[j] == j
            &&& forall|i: int|
                0 <= i < self.states@.len() ==> ((#[trigger] self.states@[i]) is Done <==> i
                    < self.outcomes@.len())
            &&& forall|i: int|
                0 <= i < self.states@.len() && (#[trigger] self.states@[i]) is InFlight ==> i
                    == self.outcomes@.len()
        }
    }

    /// What each run-level phase promises.
    pub open spec fn phase_ok(self) -> bool {
        &&& (self.phase is Idle ==> self.items@.len() == 0)
        &&& (self.phase is Running ==> self.items@.len() > 0)
        &&& (self.phase is Drained ==> self.items@.len() == 0)
    }

    /// The scheduler's invariant, preserved by every operation.
    pub open spec fn wf(self) -> bool {
        &&& self.counts_ok()
        &&& self.order_ok()
        &&& self.serial_ok()
        &&& self.phase_ok()
    }

    /// A scheduler in its initial `Idle` phase, before the work set is
    /// known. `host_default` is the host's available parallelism, used when
    /// parallel mode leaves the worker count to the runtime.
    pub fn new(mode: ConcurrencyMode, host_default: usize) -> (s: Scheduler)
        requires
            host_default >= 1,
        ensures
            s.wf(),
            s.phase is Idle,
            s.mode == mode,
            s.limit == spec_effective_workers(mode, host_default),
            s.items@.len() == 0,
            s.outcomes@.len() == 0,
            s.in_flight == 0,
            !s.cancelled,
    {
        let limit = effective_workers(&mode, host_default);
        Scheduler {
            items: Vec::new(),
            states: Vec::new(),
            outcomes: Vec::new(),
            order: Ghost(Seq::empty()),
            in_flight: 0,
            limit,
            mode,
            cancelled: false,
            phase: SchedulerPhase::Idle,
        }
    }

    /// Loads the discovered work set: `Idle -> Running`, or directly
    /// `Idle -> Drained` when the work set is empty (zero outcomes).
    #[verifier::loop_isolation(false)]
    pub fn start(&mut self, items: Vec<WorkItem>)
        requires
            old(self).wf(),
            old(self).phase is Idle,
        ensures
            final(self).wf(),
            final(self).items@ == items@,
            final(self).mode == old(self).mode,
            final(self).limit == old(self).limit,
            final(self).in_flight == 0,
            final(self).outcomes@.len() == 0,
            final(self).cancelled == old(self).cancelled,
            final(self).states@.len() == items@.len(),
            forall|i: int|
                0 <= i < final(self).states@.len() ==> (#[trigger] final(self).states@[i])
                    is NotStarted,
            items@.len() == 0 ==> final(self).phase is Drained,
            items@.len() > 0 ==> final(self).phase is Running,
    {
        let n = items.len();
        let mut states: Vec<TaskState> = Vec::new();
        let mut i: usize = 0;
        while i < n
            invariant
                i <= n,
                states@.len() == i as int,
                forall|j: int| 0 <= j < i ==> (#[trigger] states@[j]) is NotStarted,
            decreases n - i,
        {
            states.push(TaskState::NotStarted);
            i += 1;
        }
        proof {
            lemma_count_none(states@, 1, 0);
            lemma_count_none(states@, 2, 0);
        }
        self.items = items;
        self.states = states;
        self.phase = if n == 0 {
            SchedulerPhase::Drained
        } else {
            SchedulerPhase::Running
        };
    }

    /// Raises the run-wide cancellation signal: monotonic, set at most
    /// once, never reset. Nothing else changes — in particular every
    /// already-recorded outcome and every task state is preserved — but no
    /// further task will be handed out.
    pub fn cancel(&mut self)
        requires
            old(self).wf(),
        ensures
            final(self).wf(),
            final(self).cancelled,
            final(self).items@ == old(self).items@,
            final(self).states@ == old(self).states@,
            final(self).outcomes@ == old(self).outcomes@,
            final(self).order@ == old(self).order@,
            final(self).in_flight == old(self).in_flight,
            final(self).limit == old(self).limit,
            final(self).mode == old(self).mode,
            final(self).phase == old(self).phase,
    {
        self.cancelled = true;
    }

    /// Hands out the next task to run, flipping it `NotStarted ->
    /// InFlight`: the lowest-index waiting task is chosen, so serial runs
    /// start tasks in enumeration order. Returns nothing when cancellation
    /// was raised, when the worker ceiling is reached — it is hard, never
    /// exceeded even transiently — or when no task is left to start.
    #[verifier::loop_isolation(false)]
    pub fn acquire(&mut self) -> (r: Option<usize>)
        requires
            old(self).wf(),
            old(self).phase is Running,
        ensures
            final(self).wf(),
            final(self).items@ == old(self).items@,
            final(self).outcomes@ == old(self).outcomes@,
            final(self).order@ == old(self).order@,
            final(self).mode == old(self).mode,
            final(self).limit == old(self).limit,
            final(self).cancelled == old(self).cancelled,
            final(self).phase == old(self).phase,
            match r {
                Some(i) => {
                    &&& !old(self).cancelled
                    &&& old(self).in_flight < old(self).limit
                    &&& i < old(self).states@.len()
                    &&& old(self).states@[i as int] is NotStarted
                    &&& forall|j: int|
                        0 <= j < i ==> !((#[trigger] old(self).states@[j]) is NotStarted)
                    &&& final(self).states@ == old(self).states@.update(
                        i as int,
                        TaskState::InFlight,
                    )
                    &&& final(self).in_flight == old(self).in_flight + 1
                },
                None => {
                    &&& *final(self) == *old(self)
                    &&& (old(self).cancelled || old(self).in_flight >= old(self).limit
                        || forall|j: int|
                        0 <= j < old(self).states@.len() ==> !((#[trigger] old(
                            self,
                        ).states@[j]) is NotStarted))
                },
            },
    {
        if self.cancelled || self.in_flight >= self.limit {
            return None;
        }
        let n = self.states.len();
        let mut i: usize = 0;
        while i < n && self.states[i] != TaskState::NotStarted
            invariant
                i <= n,
                forall|j: int| 0 <= j < i ==> !((#[trigger] self.states@[j]) is NotStarted),
            decreases n - i,
        {
            i += 1;
        }
        if i < n {
            proof {
                let s = self.states@;
                // No task is in flight beyond the counter; in serial mode the
                // chosen task is exactly the next one in enumeration order.
                if self.mode is Serial {
                    assert(count_kind(s, 1) == 0);
                    lemma_count_zero_none(s, 1, 0);
                    assert forall|j: int| 0 <= j < i implies (#[trigger] s[j]) is Done by {
                        assert(!(s[j] is NotStarted));
                        assert(state_kind(s[j]) != 1);
                    }
                    if i as int > self.outcomes@.len() {
                        assert(s[self.outcomes@.len() as int] is Done);
                    }
                    assert(i as int == self.outcomes@.len());
                }
                lemma_count_update(s, 0, i as int, TaskState::InFlight, 0);
                lemma_count_update(s, 1, i as int, TaskState::InFlight, 0);
                lemma_count_update(s, 2, i as int, TaskState::InFlight, 0);
            }
            self.states.set(i, TaskState::InFlight);
            self.in_flight = self.in_flight + 1;
            proof {
                assert forall|j: int|
                    0 <= j < self.order@.len() implies self.states@[#[trigger] self.order@[j]]
                    is Done by {
                    assert(old(self).states@[self.order@[j]] is Done);
                }
            }
            Some(i)
        } else {
            None
        }
    }

    /// Records the terminal outcome of an in-flight task: `InFlight ->
    /// Done`, the outcome appended to the emission order. No other task's
    /// state is touched, so one task's failure cannot cancel, delay or
    /// otherwise affect a sibling task.
    pub fn complete(&mut self, i: usize, outcome: FetchOutcome)
        requires
            old(self).wf(),
            old(self).phase is Running,
            i < old(self).states@.len(),
            old(self).states@[i as int] is InFlight,
            outcome.spec_name() == old(self).items@[i as int].name@,
        ensures
            final(self).wf(),
            final(self).items@ == old(self).items@,
            final(self).states@ == old(self).states@.update(i as int, TaskState::Done),
            forall|j: int|
                0 <= j < old(self).states@.len() && j != i ==> final(self).states@[j] == old(
                    self,
                ).states@[j],
            final(self).outcomes@ == old(self).outcomes@.push(outcome),
            final(self).order@ == old(self).order@.push(i as int),
            final(self).in_flight == old(self).in_flight - 1,
            final(self).limit == old(self).limit,
            final(self).mode == old(self).mode,
            final(self).cancelled == old(self).cancelled,
            final(self).phase == old(self).phase,
    {
        proof {
            let s = self.states@;
            lemma_count_at_least_one(s, 1, i as int, 0);
            lemma_count_update(s, 0, i as int, TaskState::Done, 0);
            lemma_count_update(s, 1, i as int, TaskState::Done, 0);
            lemma_count_update(s, 2, i as int, TaskState::Done, 0);
        }
        self.states.set(i, TaskState::Done);
        self.outcomes.push(outcome);
        proof {
            self.order@ = self.order@.push(i as int);
        }
        self.in_flight = self.in_flight - 1;
        proof {
            let old_order = old(self).order@;
            let old_states = old(self).states@;
            assert forall|j: int|
                0 <= j < self.order@.len() implies self.states@[#[trigger] self.order@[j]]
                is Done by {
                if j < old_order.len() {
                    assert(old_states[old_order[j]] is Done);
                }
            }
            assert forall|j1: int, j2: int|
                0 <= j1 < j2 < self.order@.len() implies self.order@[j1] != self.order@[j2] by {
                if j2 < old_order.len() {
                } else {
                    assert(self.order@[j2] == i as int);
                    assert(old_states[old_order[j1]] is Done);
                }
            }
            assert forall|ii: int|
                0 <= ii < self.states@.len() && (#[trigger] self.states@[ii]) is Done implies exists|
                j: int,
            | 0 <= j < self.order@.len() && self.order@[j] == ii by {
                if ii == i as int {
                    assert(self.order@[old_order.len() as int] == ii);
                } else {
                    assert(old_states[ii] is Done);
                    let j = choose|j: int|
                        0 <= j < old_order.len() && old_order[j] == ii;
                    assert(self.order@[j] == ii);
                }
            }
            if self.mode is Serial {
                assert forall|ii: int|
                    0 <= ii < self.states@.len() implies ((#[trigger] self.states@[ii]) is Done
                    <==> ii < self.outcomes@.len()) by {
                    if ii == i as int {
                        assert(old_states[ii] is InFlight);
                        assert(ii == old(self).outcomes@.len());
                    }
                }
            }
        }
    }

    /// Drains the scheduler once every handed-out task has reached its
    /// terminal outcome. The report holds exactly one outcome per work
    /// item: first every collected outcome, in emission order, then one
    /// `Cancelled` outcome for each task that never started (the fixed
    /// policy for tasks skipped by cancellation), in enumeration order.
    /// Consuming the scheduler is the transition to `Drained`.
    /// In serial mode the whole report stands in enumeration order.
    #[verifier::loop_isolation(false)]
    pub fn finish(self) -> (r: Vec<FetchOutcome>)
        requires
            self.wf(),
            !(self.phase is Idle),
            self.in_flight == 0,
        ensures
            r@.len() == self.items@.len(),
            forall|j: int| 0 <= j < self.outcomes@.len() ==> r@[j] == self.outcomes@[j],
            forall|j: int|
                self.outcomes@.len() <= j < r@.len() ==> (#[trigger] r@[j]) is Cancelled,
            forall|i: int|
                0 <= i < self.states@.len() && (#[trigger] self.states@[i]) is NotStarted ==> exists|
                j: int,
            |
                self.outcomes@.len() <= j < r@.len() && (#[trigger] r@[j]).spec_name()
                    == self.items@[i].name@,
            self.mode is Serial ==> forall|j: int|
                self.outcomes@.len() <= j < r@.len() ==> (#[trigger] r@[j]).spec_name()
                    == self.items@[j].name@,
    {
        let ghost g = self;
        let ghost base = self.outcomes@.len() as int;
        let Scheduler {
            items,
            states,
            outcomes: mut collected,
            order: _,
            in_flight: _,
            limit: _,
            mode: _,
            cancelled: _,
            phase: _,
        } = self;
        proof {
            lemma_count_total(states@, 0);
            if g.mode is Serial {
                lemma_count_zero_none(states@, 1, 0);
            }
        }
        let n = states.len();
        let mut i: usize = 0;
        while i < n
            invariant
                i <= n,
                collected@.len() >= base,
                collected@.len() == base + count_kind(states@, 0) - count_kind_from(
                    states@,
                    0,
                    i as int,
                ),
                forall|j: int| 0 <= j < base ==> collected@[j] == g.outcomes@[j],
                forall|j: int|
                    base <= j < collected@.len() ==> (#[trigger] collected@[j]) is Cancelled,
                forall|ii: int|
                    0 <= ii < i && (#[trigger] states@[ii]) is NotStarted ==> exists|j: int|
                        base <= j < collected@.len() && (#[trigger] collected@[j]).spec_name()
                            == items@[ii].name@,
                g.mode is Serial ==> collected@.len() == if i as int <= base {
                    base
                } else {
                    i as int
                },
                g.mode is Serial ==> forall|j: int|
                    base <= j < collected@.len() ==> (#[trigger] collected@[j]).spec_name()
                        == items@[j].name@,
            decreases n - i,
        {
            if states[i] == TaskState::NotStarted {
                proof {
                    assert(count_kind_from(states@, 0, i as int) == 1 + count_kind_from(
                        states@,
                        0,
                        i + 1,
                    ));
                    if g.mode is Serial {
                        // A waiting task in serial mode sits past the done
                        // prefix, so the pushed line is the one for slot i.
                        assert(state_kind(states@[i as int]) != 1);
                        assert(!(states@[i as int] is Done));
                        assert(i as int >= base);
                    }
                }
                let line_name = items[i].name.clone();
                let ghost prev = collected@;
                collected.push(FetchOutcome::Cancelled { name: line_name });
                proof {
                    let jnew = prev.len() as int;
                    assert(collected@[jnew].spec_name() == items@[i as int].name@);
                    assert forall|ii: int|
                        0 <= ii <= i as int && (#[trigger] states@[ii])
                            is NotStarted implies exists|j: int|
                        base <= j < collected@.len() && (#[trigger] collected@[j]).spec_name()
                            == items@[ii].name@ by {
                        if ii == i as int {
                            assert(base <= jnew < collected@.len());
                            assert(collected@[jnew].spec_name() == items@[ii].name@);
                        } else {
                            let j0 = choose|j: int|
                                base <= j < prev.len() && (#[trigger] prev[j]).spec_name()
                                    == items@[ii].name@;
                            assert(collected@[j0] == prev[j0]);
                            assert(base <= j0 < collected@.len() && collected@[j0].spec_name()
                                == items@[ii].name@);
                        }
                    }
                }
            } else {
                proof {
                    assert(count_kind_from(states@, 0, i as int) == count_kind_from(
                        states@,
                        0,
                        i + 1,
                    ));
                    if g.mode is Serial && i as int >= base {
                        assert(state_kind(states@[i as int]) != 1);
                        assert(states@[i as int] is Done);
                        assert((i as int) < base);
                    }
                }
            }
            i += 1;
        }
        proof {
            assert(count_kind_from(states@, 0, n as int) == 0);
            assert(collected@.len() == base + count_kind(states@, 0));
            assert(count_kind(states@, 1) == 0);
            assert(collected@.len() == states@.len());
        }
        collected
    }
}

/// Law: the worker bound is a hard ceiling. In every well-formed scheduler
/// state — hence at every point of a run, since every operation preserves
/// well-formedness — no more than `limit` tasks are in flight, counting by
/// the per-task states themselves.
pub proof fn lemma_bound_never_exceeded(s: Scheduler)
    requires
        s.wf(),
    ensures
        count_kind(s.states@, 1) <= s.limit,
        s.mode is Serial ==> count_kind(s.states@, 1) <= 1,
{
}

/// Law: in serial mode the collected outcomes stand exactly in enumeration
/// order — for any mix of success and failure outcomes, the j-th collected
/// outcome is the j-th work item's, in every well-formed scheduler state.
pub proof fn lemma_serial_order(s: Scheduler)
    requires
        s.wf(),
        s.mode is Serial,
    ensures
        forall|j: int|
            0 <= j < s.outcomes@.len() ==> (#[trigger] s.outcomes@[j]).spec_name()
                == s.items@[j].name@,
{
    assert forall|j: int|
        0 <= j < s.outcomes@.len() implies (#[trigger] s.outcomes@[j]).spec_name()
        == s.items@[j].name@ by {
        assert(s.order@[j] == j);
        assert(s.outcomes@[j].spec_name() == s.items@[s.order@[j]].name@);
    }
}

} // verus!

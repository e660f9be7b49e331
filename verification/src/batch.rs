//! Per-job outcomes and the batch orchestrator: outcomes are recorded once
//! per manifest index, and the batch result is derived under one of two
//! failure policies.

use crate::job::{BuildError, Job};
use vstd::prelude::*;

verus! {

/// How the batch reacts to a failing job.
#[derive(Clone, Copy)]
pub enum Policy {
    /// Stop dispatching new jobs after the first failure; the reported
    /// failure is the failing job with the lowest manifest index.
    FailFast,
    /// Run every job and report every failure at the end.
    ContinueOnError,
}

/// The default policy is to fail fast.
impl Default for Policy {
    fn default() -> (r: Policy)
        ensures
            r is FailFast,
    {
        Policy::FailFast
    }
}

/// Why one job failed.
pub enum FailureKind {
    /// The record could not be turned into a job.
    Build { error: BuildError },
    /// The external encoder could not be launched.
    Spawn { message: String },
    /// The encoder ran but exited non-zero; both captured streams are kept.
    Encode { captured_out: Vec<u8>, captured_err: Vec<u8> },
}

/// Everything an operator needs to re-run one failing job by hand.
pub struct FailureDiag {
    /// The manifest's source file path.
    pub source_file: String,
    /// The intended output path (empty when the job was never built).
    pub output_path: String,
    /// The full invoked argument vector (empty when the job was never built).
    pub args: Vec<String>,
    /// What went wrong.
    pub kind: FailureKind,
}

/// The result of executing one job.
pub enum Outcome {
    /// The encoder exited zero; carries the output path.
    Success { output_path: String },
    /// The job failed; carries full diagnostics.
    Failure { diag: FailureDiag },
}

/// One failing job together with its manifest index.
pub struct JobFailure {
    /// The job's 0-based manifest index.
    pub index: usize,
    /// Its diagnostics.
    pub diag: FailureDiag,
}

/// The overall result of a batch.
pub enum BatchResult {
    /// Every job converted.
    Success,
    /// At least one job failed; under fail-fast exactly the first failure
    /// in manifest order, under continue-on-error every failure in manifest
    /// order.
    Failed { failures: Vec<JobFailure> },
}

/// Whether the slot at `j` holds a recorded failure.
pub open spec fn slot_is_failure(s: Seq<Option<Outcome>>, j: int) -> bool {
    s[j] matches Some(Outcome::Failure { .. })
}

/// Whether every slot holds a recorded outcome.
pub open spec fn all_recorded(s: Seq<Option<Outcome>>) -> bool {
    forall|i: int| 0 <= i < s.len() ==> (#[trigger] s[i]) is Some
}

/// Whether `f` faithfully reports the failure recorded at its index.
pub open spec fn failure_matches(s: Seq<Option<Outcome>>, f: JobFailure) -> bool {
    &&& f.index < s.len()
    &&& s[f.index as int] matches Some(Outcome::Failure { diag }) && diag == f.diag
}

/// Collects one outcome per manifest index and derives the batch result.
/// Every outcome is recorded exactly once, at the index of the job it
/// belongs to.
pub struct Orchestrator {
    policy: Policy,
    slots: Vec<Option<Outcome>>,
    failure_seen: bool,
}

impl Orchestrator {
    /// The recorded outcomes, one slot per manifest index.
    pub closed spec fn slots_view(&self) -> Seq<Option<Outcome>> {
        self.slots@
    }

    /// The configured failure policy.
    pub closed spec fn policy_spec(&self) -> Policy {
        self.policy
    }

    /// Whether any recorded outcome is a failure.
    pub open spec fn any_failure(&self) -> bool {
        exists|i: int|
            0 <= i < self.slots_view().len() && slot_is_failure(self.slots_view(), i)
    }

    /// The cached failure flag agrees with the recorded outcomes.
    pub closed spec fn wf(&self) -> bool {
        self.failure_seen == self.any_failure()
    }

    /// A fresh orchestrator for `total` jobs with no outcome recorded yet.
    pub fn new(total: usize, policy: Policy) -> (o: Orchestrator)
        ensures
            o.wf(),
            o.policy_spec() == policy,
            o.slots_view().len() == total,
            forall|i: int| 0 <= i < total ==> (#[trigger] o.slots_view()[i]) is None,
    {
        let mut slots: Vec<Option<Outcome>> = Vec::new();
        while slots.len() < total
            invariant
                slots@.len() <= total,
                forall|i: int| 0 <= i < slots@.len() ==> (#[trigger] slots@[i]) is None,
            decreases total - slots@.len(),
        {
            slots.push(None);
        }
        Orchestrator { policy, slots, failure_seen: false }
    }

    /// The number of jobs in the batch.
    pub fn total(&self) -> (r: usize)
        ensures
            r == self.slots_view().len(),
    {
        self.slots.len()
    }

    /// Whether a not-yet-started job may still be dispatched: always under
    /// continue-on-error, and only while no failure has been recorded under
    /// fail-fast.
    pub fn should_dispatch(&self) -> (r: bool)
        requires
            self.wf(),
        ensures
            r == match self.policy_spec() {
                Policy::ContinueOnError => true,
                Policy::FailFast => !self.any_failure(),
            },
    {
        match self.policy {
            Policy::ContinueOnError => true,
            Policy::FailFast => !self.failure_seen,
        }
    }

    /// Whether any recorded outcome is a failure.
    pub fn has_failure(&self) -> (r: bool)
        requires
            self.wf(),
        ensures
            r == self.any_failure(),
    {
        self.failure_seen
    }

    /// Whether every job has an outcome recorded.
    pub fn complete(&self) -> (r: bool)
        ensures
            r == all_recorded(self.slots_view()),
    {
        let mut i: usize = 0;
        while i < self.slots.len()
            invariant
                i <= self.slots@.len(),
                forall|j: int| 0 <= j < i ==> (#[trigger] self.slots@[j]) is Some,
            decreases self.slots@.len() - i,
        {
            if self.slots[i].is_none() {
                return false;
            }
            i += 1;
        }
        true
    }

    /// Records the outcome of the job at `index`. Each index takes exactly
    /// one outcome: a second recording at the same index is ruled out.
    pub fn record(&mut self, index: usize, outcome: Outcome)
        requires
            old(self).wf(),
            index < old(self).slots_view().len(),
            old(self).slots_view()[index as int] is None,
        ensures
            final (self).wf(),
            final (self).policy_spec() == old(self).policy_spec(),
            final (self).slots_view() == old(self).slots_view().update(
                index as int,
                Some(outcome),
            ),
    {
        let is_fail = match &outcome {
            Outcome::Failure { .. } => true,
            _ => false,
        };
        self.slots.set(index, Some(outcome));
        if is_fail {
            self.failure_seen = true;
        }
        proof {
            if is_fail {
                assert(slot_is_failure(self.slots_view(), index as int));
            } else {
                if old(self).any_failure() {
                    let j = choose|j: int|
                        0 <= j < old(self).slots_view().len() && slot_is_failure(
                            old(self).slots_view(),
                            j,
                        );
                    assert(slot_is_failure(self.slots_view(), j));
                }
                if self.any_failure() {
                    let j = choose|j: int|
                        0 <= j < self.slots_view().len() && slot_is_failure(
                            self.slots_view(),
                            j,
                        );
                    assert(slot_is_failure(old(self).slots_view(), j));
                }
            }
        }
    }
    /// Derives the batch result from the recorded outcomes. With no failure
    /// recorded the batch succeeded. Otherwise the failures are reported in
    /// manifest order, lowest index first: under fail-fast exactly the one
    /// with the lowest manifest index, whichever finished first; under
    /// continue-on-error every one of them.
    pub fn into_result(self) -> (res: BatchResult)
        requires
            self.wf(),
            self.any_failure() || all_recorded(self.slots_view()),
        ensures
            res is Success <==> !self.any_failure(),
            res matches BatchResult::Failed { failures } ==> {
                &&& failures@.len() >= 1
                &&& forall|k: int|
                    0 <= k < failures@.len() ==> failure_matches(
                        self.slots_view(),
                        #[trigger] failures@[k],
                    )
                &&& forall|k1: int, k2: int|
                    0 <= k1 < k2 < failures@.len() ==> failures@[k1].index
                        < failures@[k2].index
                &&& forall|j: int|
                    0 <= j < failures@[0].index ==> !slot_is_failure(self.slots_view(), j)
                &&& self.policy_spec() is FailFast ==> failures@.len() == 1
                &&& self.policy_spec() is ContinueOnError ==> forall|j: int|
                    0 <= j < self.slots_view().len() && slot_is_failure(self.slots_view(), j)
                        ==> exists|k: int|
                        0 <= k < failures@.len() && #[trigger] failures@[k].index == j
            },
    {
        let ghost spolicy = self.policy_spec();
        let ghost s = self.slots_view();
        let Orchestrator { policy, mut slots, failure_seen: _ } = self;
        proof {
            assert(slots@ == s);
        }
        let fail_fast = match policy {
            Policy::FailFast => true,
            Policy::ContinueOnError => false,
        };
        let total = slots.len();
        let mut failures: Vec<JobFailure> = Vec::new();
        let mut i: usize = 0;
        let mut done = false;
        while !done && slots.len() > 0
            invariant
                total == s.len(),
                i + slots@.len() == s.len(),
                slots@ == s.subrange(i as int, s.len() as int),
                fail_fast == (spolicy is FailFast),
                forall|k: int|
                    0 <= k < failures@.len() ==> failure_matches(s, #[trigger] failures@[k])
                        && failures@[k].index < i,
                forall|k1: int, k2: int|
                    0 <= k1 < k2 < failures@.len() ==> failures@[k1].index
                        < failures@[k2].index,
                failures@.len() == 0 ==> forall|j: int| 0 <= j < i ==> !slot_is_failure(s, j),
                failures@.len() > 0 ==> forall|j: int|
                    0 <= j < failures@[0].index ==> !slot_is_failure(s, j),
                fail_fast ==> failures@.len() <= 1,
                done ==> fail_fast && failures@.len() == 1,
                fail_fast && failures@.len() == 1 ==> done,
                !fail_fast ==> forall|j: int|
                    0 <= j < i && slot_is_failure(s, j) ==> exists|k: int|
                        0 <= k < failures@.len() && #[trigger] failures@[k].index == j,
            decreases slots@.len(),
        {
            let slot = slots.remove(0);
            proof {
                assert(slot == s[i as int]);
                assert(slots@ =~= s.subrange(i as int + 1, s.len() as int));
            }
            match slot {
                Some(Outcome::Failure { diag }) => {
                    let ghost pre_failures = failures@;
                    failures.push(JobFailure { index: i, diag });
                    proof {
                        assert(failures@[failures@.len() - 1].index == i);
                        assert(forall|k: int|
                            0 <= k < pre_failures.len() ==> failures@[k] == pre_failures[k]);
                    }
                    if fail_fast {
                        done = true;
                    }
                },
                _ => {},
            }
            i += 1;
        }
        if failures.len() == 0 {
            proof {
                assert(i == s.len());
                assert(!(exists|j: int| 0 <= j < s.len() && slot_is_failure(s, j)));
            }
            BatchResult::Success
        } else {
            proof {
                let f0 = failures@[0];
                assert(failure_matches(s, f0));
                assert(slot_is_failure(s, f0.index as int));
            }
            BatchResult::Failed { failures }
        }
    }
}

/// The worker-pool width actually used: the requested concurrency, or all
/// available execution units when the request is 0.
pub fn effective_concurrency(requested: usize, available: usize) -> (r: usize)
    ensures
        r == if requested == 0 {
            available
        } else {
            requested
        },
{
    if requested == 0 {
        available
    } else {
        requested
    }
}

/// Classifies one finished encoder run: exit zero is a success carrying the
/// output path; a non-zero exit is a failure carrying both captured streams
/// and the invoked argument vector.
pub fn classify_exit(job: Job, exited_zero: bool, captured_out: Vec<u8>, captured_err: Vec<u8>) -> (o:
    Outcome)
    ensures
        exited_zero ==> (o matches Outcome::Success { output_path } && output_path@
            == job.output_path@),
        !exited_zero ==> (o matches Outcome::Failure { diag } && {
            &&& diag.source_file@ == job.source_file@
            &&& diag.output_path@ == job.output_path@
            &&& diag.args.deep_view() == job.args.deep_view()
            &&& diag.kind matches FailureKind::Encode { captured_out: so, captured_err: se }
                && so@ == captured_out@ && se@ == captured_err@
        }),
{
    if exited_zero {
        Outcome::Success { output_path: job.output_path }
    } else {
        Outcome::Failure {
            diag: FailureDiag {
                source_file: job.source_file,
                output_path: job.output_path,
                args: job.args,
                kind: FailureKind::Encode { captured_out, captured_err },
            },
        }
    }
}

/// The failure outcome for a job whose encoder process could not be
/// launched at all; no output was captured.
pub fn spawn_failure(job: Job, message: String) -> (o: Outcome)
    ensures
        o matches Outcome::Failure { diag } && {
            &&& diag.source_file@ == job.source_file@
            &&& diag.output_path@ == job.output_path@
            &&& diag.args.deep_view() == job.args.deep_view()
            &&& diag.kind matches FailureKind::Spawn { message: m } && m@ == message@
        },
{
    Outcome::Failure {
        diag: FailureDiag {
            source_file: job.source_file,
            output_path: job.output_path,
            args: job.args,
            kind: FailureKind::Spawn { message },
        },
    }
}

/// The failure outcome for a record that could not be turned into a job;
/// no process is ever spawned for it.
pub fn build_failure(source_file: String, error: BuildError) -> (o: Outcome)
    ensures
        o matches Outcome::Failure { diag } && {
            &&& diag.source_file@ == source_file@
            &&& diag.output_path@.len() == 0
            &&& diag.args.deep_view().len() == 0
            &&& diag.kind matches FailureKind::Build { error: e } && e == error
        },
{
    Outcome::Failure {
        diag: FailureDiag {
            source_file,
            output_path: String::new(),
            args: Vec::new(),
            kind: FailureKind::Build { error },
        },
    }
}

} // verus!

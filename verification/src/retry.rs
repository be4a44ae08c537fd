//! Retry controller: the decision layer around one slot attempt. A transient
//! failure is retried after the wait the backoff policy grants, with a
//! warning notification; a permanent failure or a success concludes
//! immediately. The policy itself (intervals, jitter, budget) is a
//! collaborator: it hands in the next wait, or nothing when the budget is
//! exhausted.

use vstd::prelude::*;

use crate::engine::{AttemptOutcome, AttemptOutcomeModel};
use crate::events::{
    AttemptFailure, AttemptFailureModel, EmittedEvent, EmittedEventModel, TransientFaultModel,
};

verus! {

/// What the controller does after one attempt.
#[derive(Debug, PartialEq, Eq)]
pub enum ControllerStep {
    /// The slot is settled: a success (skip or indexed) or the final error.
    Concluded { result: Result<AttemptOutcome, AttemptFailure> },
    /// Run the attempt again after the wait, emitting the notice.
    RetryAfter { wait_secs: u64, notice: EmittedEvent },
}

pub ghost enum ControllerStepModel {
    Concluded { result: Result<AttemptOutcomeModel, AttemptFailureModel> },
    RetryAfter { wait_secs: u64, notice: EmittedEventModel },
}

impl View for ControllerStep {
    type V = ControllerStepModel;

    open spec fn view(&self) -> ControllerStepModel {
        match self {
            ControllerStep::Concluded { result } => ControllerStepModel::Concluded {
                result: match result {
                    Ok(o) => Ok(o@),
                    Err(f) => Err(f@),
                },
            },
            ControllerStep::RetryAfter { wait_secs, notice } => ControllerStepModel::RetryAfter {
                wait_secs: *wait_secs,
                notice: notice@,
            },
        }
    }
}

/// The controller decision: retry only a transient failure, and only while
/// the policy still grants a wait; conclude on everything else, propagating
/// the outcome unchanged.
pub open spec fn spec_decide(
    slot: u32,
    outcome: AttemptOutcomeModel,
    policy_wait: Option<u64>,
) -> ControllerStepModel {
    match outcome {
        AttemptOutcomeModel::Failed { failure } => match failure {
            AttemptFailureModel::Transient(fault) => match policy_wait {
                Some(w) => ControllerStepModel::RetryAfter {
                    wait_secs: w,
                    notice: EmittedEventModel::RetryScheduled { slot, fault, wait_secs: w },
                },
                None => ControllerStepModel::Concluded {
                    result: Err(AttemptFailureModel::Transient(fault)),
                },
            },
            AttemptFailureModel::Permanent(fault) => ControllerStepModel::Concluded {
                result: Err(AttemptFailureModel::Permanent(fault)),
            },
        },
        _ => ControllerStepModel::Concluded { result: Ok(outcome) },
    }
}

/// Decides what follows one attempt. `policy_wait` is the wait the
/// backoff policy grants for the next retry, `None` when the retry budget is
/// exhausted.
pub fn decide_after_attempt(slot: u32, outcome: AttemptOutcome, policy_wait: Option<u64>) -> (r:
    ControllerStep)
    ensures
        r@ == spec_decide(slot, outcome@, policy_wait),
{
    match outcome {
        AttemptOutcome::Failed { failure } => match failure {
            AttemptFailure::Transient(fault) => match policy_wait {
                Some(w) => ControllerStep::RetryAfter {
                    wait_secs: w,
                    notice: EmittedEvent::RetryScheduled { slot, fault, wait_secs: w },
                },
                None => ControllerStep::Concluded {
                    result: Err(AttemptFailure::Transient(fault)),
                },
            },
            AttemptFailure::Permanent(fault) => ControllerStep::Concluded {
                result: Err(AttemptFailure::Permanent(fault)),
            },
        },
        other => ControllerStep::Concluded { result: Ok(other) },
    }
}

/// Everything a whole retry loop did: its final result, when it concluded
/// within the scripted attempts, and the retry notices in order.
pub ghost struct ControllerRun {
    pub result: Option<Result<AttemptOutcomeModel, AttemptFailureModel>>,
    pub notices: Seq<EmittedEventModel>,
}

/// Folds the controller decision over a sequence of attempt outcomes and the
/// waits the policy would grant at each step.
pub open spec fn spec_run_controller(
    slot: u32,
    outcomes: Seq<AttemptOutcomeModel>,
    waits: Seq<Option<u64>>,
) -> ControllerRun
    decreases outcomes.len(),
{
    if outcomes.len() == 0 || waits.len() == 0 {
        ControllerRun { result: None, notices: Seq::empty() }
    } else {
        match spec_decide(slot, outcomes[0], waits[0]) {
            ControllerStepModel::Concluded { result } => ControllerRun {
                result: Some(result),
                notices: Seq::empty(),
            },
            ControllerStepModel::RetryAfter { wait_secs, notice } => {
                let rest = spec_run_controller(slot, outcomes.drop_first(), waits.drop_first());
                ControllerRun { result: rest.result, notices: seq![notice] + rest.notices }
            },
        }
    }
}

/// Whether the outcome is a transient failure.
pub open spec fn is_transient_failure(o: AttemptOutcomeModel) -> bool {
    match o {
        AttemptOutcomeModel::Failed { failure } => failure is Transient,
        _ => false,
    }
}

/// The fault of a transient failure.
pub open spec fn transient_fault_of(o: AttemptOutcomeModel) -> TransientFaultModel {
    o->Failed_failure->Transient_0
}

/// Retry behavior, success side: after `n` transient failures each granted a
/// wait, followed by a non-failure outcome, the slot settles on that outcome
/// with exactly `n` retry notices, the `k`-th carrying the `k`-th fault and
/// the `k`-th granted wait.
pub proof fn lemma_retries_until_success(
    slot: u32,
    outcomes: Seq<AttemptOutcomeModel>,
    waits: Seq<Option<u64>>,
    n: int,
)
    requires
        0 <= n,
        outcomes.len() > n,
        waits.len() > n,
        forall|k: int| 0 <= k < n ==> is_transient_failure(#[trigger] outcomes[k]),
        forall|k: int| 0 <= k < n ==> (#[trigger] waits[k]) is Some,
        !(outcomes[n] matches AttemptOutcomeModel::Failed { .. }),
    ensures
        spec_run_controller(slot, outcomes, waits).result == Some(
            Ok::<AttemptOutcomeModel, AttemptFailureModel>(outcomes[n]),
        ),
        spec_run_controller(slot, outcomes, waits).notices.len() == n,
        forall|k: int|
            0 <= k < n ==> spec_run_controller(slot, outcomes, waits).notices[k] == (
            EmittedEventModel::RetryScheduled {
                slot,
                fault: transient_fault_of(outcomes[k]),
                wait_secs: waits[k]->0,
            }),
    decreases n,
{
    let run = spec_run_controller(slot, outcomes, waits);
    if n == 0 {
        assert(spec_decide(slot, outcomes[0], waits[0]) == (ControllerStepModel::Concluded {
            result: Ok::<AttemptOutcomeModel, AttemptFailureModel>(outcomes[0]),
        }));
    } else {
        assert(is_transient_failure(outcomes[0]));
        assert(waits[0] is Some);
        let w0 = waits[0]->0;
        let f0 = transient_fault_of(outcomes[0]);
        assert(spec_decide(slot, outcomes[0], waits[0]) == (ControllerStepModel::RetryAfter {
            wait_secs: w0,
            notice: EmittedEventModel::RetryScheduled { slot, fault: f0, wait_secs: w0 },
        }));
        let ot = outcomes.drop_first();
        let wt = waits.drop_first();
        assert forall|k: int| 0 <= k < n - 1 implies is_transient_failure(#[trigger] ot[k])
            && (wt[k]) is Some by {
            assert(ot[k] == outcomes[k + 1]);
            assert(wt[k] == waits[k + 1]);
        }
        assert(ot[n - 1] == outcomes[n]);
        lemma_retries_until_success(slot, ot, wt, n - 1);
        let rest = spec_run_controller(slot, ot, wt);
        assert forall|k: int| 0 <= k < n implies run.notices[k] == (
        EmittedEventModel::RetryScheduled {
            slot,
            fault: transient_fault_of(outcomes[k]),
            wait_secs: waits[k]->0,
        }) by {
            if k > 0 {
                assert(run.notices[k] == rest.notices[k - 1]);
                assert(ot[k - 1] == outcomes[k]);
                assert(wt[k - 1] == waits[k]);
            }
        }
    }
}

/// Retry behavior, success side, with a policy whose waits increase: the
/// notices then carry strictly increasing wait durations.
pub proof fn lemma_retry_notices_increase(
    slot: u32,
    outcomes: Seq<AttemptOutcomeModel>,
    waits: Seq<Option<u64>>,
    n: int,
)
    requires
        0 <= n,
        outcomes.len() > n,
        waits.len() > n,
        forall|k: int| 0 <= k < n ==> is_transient_failure(#[trigger] outcomes[k]),
        forall|k: int| 0 <= k < n ==> (#[trigger] waits[k]) is Some,
        !(outcomes[n] matches AttemptOutcomeModel::Failed { .. }),
        forall|a: int, b: int| 0 <= a < b < n ==> waits[a]->0 < waits[b]->0,
    ensures
        forall|a: int, b: int|
            0 <= a < b < n ==> spec_run_controller(slot, outcomes, waits).notices[
                a
            ]->RetryScheduled_wait_secs < spec_run_controller(slot, outcomes, waits).notices[
                b
            ]->RetryScheduled_wait_secs,
{
    lemma_retries_until_success(slot, outcomes, waits, n);
}

/// Retry behavior, failure side: a permanent failure concludes at once with
/// that error; no retry happens and no notice is emitted.
pub proof fn lemma_permanent_never_retries(
    slot: u32,
    outcomes: Seq<AttemptOutcomeModel>,
    waits: Seq<Option<u64>>,
)
    requires
        outcomes.len() >= 1,
        waits.len() >= 1,
        outcomes[0] matches AttemptOutcomeModel::Failed { failure }
            && failure is Permanent,
    ensures
        spec_run_controller(slot, outcomes, waits).result == Some(
            Err::<AttemptOutcomeModel, AttemptFailureModel>(outcomes[0]->Failed_failure),
        ),
        spec_run_controller(slot, outcomes, waits).notices.len() == 0,
{
}

} // verus!

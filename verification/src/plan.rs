//! Plans: effects to be performed one after another.
//!
//! The host takes the steps of a plan in order and asks after each whether
//! the plan goes on. A step that is required stops the plan when it cannot be
//! done; what follows it is then never attempted.

use vstd::prelude::*;
use vstd::string::StringExecFns;

use crate::error::ErrorKind;
use crate::error::ErrorModel;
use crate::error::SandboxError;
use crate::host::Effect;
use crate::host::EffectModel;
use crate::host::Outcome;
use crate::host::OutcomeModel;
use crate::host::Step;
use crate::host::StepModel;

verus! {

/// Whether the plan stops at this step: the step is required and was not
/// done.
pub open spec fn stops_plan(step: StepModel, outcome: OutcomeModel) -> bool {
    step.required && !(outcome is Done)
}

/// The failure of a plan at a step: of the step's kind, with the step's
/// words and the host's reason.
pub open spec fn step_failed(step: StepModel, outcome: OutcomeModel) -> ErrorModel {
    ErrorModel { kind: step.kind, message: step.what + ": "@ + outcome.reason() }
}

/// A step that stops the plan when it cannot be done.
pub open spec fn must(effect: EffectModel, kind: ErrorKind, what: Seq<char>) -> StepModel {
    StepModel { effect, required: true, kind, what }
}

/// A step that is passed over when it cannot be done.
pub open spec fn may(effect: EffectModel, kind: ErrorKind, what: Seq<char>) -> StepModel {
    StepModel { effect, required: false, kind, what }
}

/// How many steps of `plan` the host attempts when the `i`-th outcome is
/// what it reports of the `i`-th step.
pub open spec fn attempted(plan: Seq<StepModel>, outcomes: Seq<OutcomeModel>) -> nat
    decreases plan.len(),
{
    if plan.len() == 0 || outcomes.len() == 0 {
        0
    } else if stops_plan(plan[0], outcomes[0]) {
        1
    } else {
        1 + attempted(plan.drop_first(), outcomes.drop_first())
    }
}

/// Whether the plan goes on behind its `i`-th step.
pub open spec fn goes_on(plan: Seq<StepModel>, outcomes: Seq<OutcomeModel>, i: int) -> bool {
    i < outcomes.len() && !stops_plan(plan[i], outcomes[i])
}

/// Whether the plan was carried out to its end.
pub open spec fn completed(plan: Seq<StepModel>, outcomes: Seq<OutcomeModel>) -> bool {
    forall|i: int| 0 <= i < plan.len() ==> #[trigger] goes_on(plan, outcomes, i)
}

/// A step whose failure stops the plan.
pub fn required(effect: Effect, kind: ErrorKind, what: &str) -> (step: Step)
    ensures
        step.deep_view() == must(effect.deep_view(), kind, what@),
{
    Step { effect, required: true, kind, what: String::from_str(what) }
}

/// A step that is tried, and passed over where it fails.
pub fn tolerated(effect: Effect, kind: ErrorKind, what: &str) -> (step: Step)
    ensures
        step.deep_view() == may(effect.deep_view(), kind, what@),
{
    Step { effect, required: false, kind, what: String::from_str(what) }
}

/// Decides whether a plan goes on behind `step`. It stops, with the failure
/// that the step names, exactly when the step is required and was not done.
pub fn proceed(step: &Step, outcome: &Outcome) -> (r: Result<(), SandboxError>)
    ensures
        r is Err <==> stops_plan(step.deep_view(), outcome.deep_view()),
        r matches Err(e) ==> e.deep_view() == step_failed(step.deep_view(), outcome.deep_view()),
{
    if step.required && !outcome.is_done() {
        let mut message = step.what.clone();
        message.append(": ");
        let reason = outcome.reason();
        message.append(reason.as_str());
        Err(SandboxError::new(step.kind, message))
    } else {
        Ok(())
    }
}

/// Nothing behind a required step that failed is attempted: the host stops
/// at the first such step, and takes every step where there is none.
pub proof fn law_plan_stops_at_first_failure(
    plan: Seq<StepModel>,
    outcomes: Seq<OutcomeModel>,
    k: int,
)
    requires
        outcomes.len() >= plan.len(),
        0 <= k < plan.len(),
        stops_plan(plan[k], outcomes[k]),
        forall|i: int| 0 <= i < k ==> !stops_plan(plan[i], outcomes[i]),
    ensures
        attempted(plan, outcomes) == k + 1,
        !completed(plan, outcomes),
    decreases plan.len(),
{
    assert(!goes_on(plan, outcomes, k));
    if k > 0 {
        let rest = plan.drop_first();
        let later = outcomes.drop_first();
        assert forall|i: int| 0 <= i < k - 1 implies !stops_plan(rest[i], later[i]) by {
            assert(rest[i] == plan[i + 1]);
            assert(later[i] == outcomes[i + 1]);
        }
        law_plan_stops_at_first_failure(rest, later, k - 1);
    }
}

/// A plan none of whose required steps fails is carried out to its end.
pub proof fn law_plan_completes(plan: Seq<StepModel>, outcomes: Seq<OutcomeModel>)
    requires
        completed(plan, outcomes),
    ensures
        attempted(plan, outcomes) == plan.len(),
    decreases plan.len(),
{
    if plan.len() > 0 {
        let rest = plan.drop_first();
        let later = outcomes.drop_first();
        assert(goes_on(plan, outcomes, 0));
        assert forall|i: int| 0 <= i < rest.len() implies #[trigger] goes_on(rest, later, i) by {
            assert(goes_on(plan, outcomes, i + 1));
            assert(rest[i] == plan[i + 1]);
            assert(later[i] == outcomes[i + 1]);
        }
        law_plan_completes(rest, later);
    }
}

} // verus!

//! The agent runtime: the state machine that drives a capability's step
//! function until a terminal state, persisting progress after every step.
//!
//! The runtime's whole behaviour is pinned to a mathematical model,
//! [`run_model`]: a pure fold of the capability's decision function over the
//! checkpointed progress, with a bounded retry budget for retryable failures
//! and a step budget standing for the overall deadline. The proofs below
//! show the properties the design owes: terminal states are sticky, fatal
//! failures bypass the retry budget, and an interrupted run resumed from its
//! persisted checkpoint reaches the same terminal outcome as an
//! uninterrupted one.

use vstd::prelude::*;
use vstd::pervasive::unreached;
use crate::capability::{Capability, StepResult, StepResultModel};
use crate::client::StatusSink;
use crate::status::{
    ErrorPatch, ErrorPatchModel, LifecycleState, RecordStatus, StatusModel, StatusPatch,
    StatusPatchModel, apply_patch_spec, clone_string,
};

verus! {

/// The patch persisted after an `InProgress` step: the run is (still) in
/// `Running`, the new checkpoint replaces the old one, everything else is
/// left untouched.
pub open spec fn continue_patch_model(progress: Seq<char>) -> StatusPatchModel {
    StatusPatchModel {
        state: Some(LifecycleState::Running),
        progress: Some(progress),
        error: ErrorPatchModel::Keep,
        completed: None,
    }
}

/// The patch persisted on terminal success: `Succeeded`, completed, no
/// error; the progress checkpoint of the last `InProgress` step is kept.
pub open spec fn success_patch_model() -> StatusPatchModel {
    StatusPatchModel {
        state: Some(LifecycleState::Succeeded),
        progress: None,
        error: ErrorPatchModel::Clear,
        completed: Some(true),
    }
}

/// The patch persisted on terminal failure: `Failed`, completed, the error
/// visible on the record; the last checkpoint is kept for a later destroy.
pub open spec fn failure_patch_model(error: Seq<char>) -> StatusPatchModel {
    StatusPatchModel {
        state: Some(LifecycleState::Failed),
        progress: None,
        error: ErrorPatchModel::Write(error),
        completed: Some(true),
    }
}

/// The patch persisted after a retryable failure that is retried: the run
/// stays in `Running`, the error is made visible for operators, nothing is
/// marked terminal.
pub open spec fn retry_patch_model(error: Seq<char>) -> StatusPatchModel {
    StatusPatchModel {
        state: Some(LifecycleState::Running),
        progress: None,
        error: ErrorPatchModel::Write(error),
        completed: None,
    }
}

pub fn continue_patch(progress: &String) -> (r: StatusPatch)
    ensures
        r@ == continue_patch_model(progress@),
{
    StatusPatch {
        state: Some(LifecycleState::Running),
        progress: Some(clone_string(progress)),
        error: ErrorPatch::Keep,
        completed: None,
    }
}

pub fn success_patch() -> (r: StatusPatch)
    ensures
        r@ == success_patch_model(),
{
    StatusPatch {
        state: Some(LifecycleState::Succeeded),
        progress: None,
        error: ErrorPatch::Clear,
        completed: Some(true),
    }
}

pub fn failure_patch(error: &String) -> (r: StatusPatch)
    ensures
        r@ == failure_patch_model(error@),
{
    StatusPatch {
        state: Some(LifecycleState::Failed),
        progress: None,
        error: ErrorPatch::Write(clone_string(error)),
        completed: Some(true),
    }
}

pub fn retry_patch(error: &String) -> (r: StatusPatch)
    ensures
        r@ == retry_patch_model(error@),
{
    StatusPatch {
        state: Some(LifecycleState::Running),
        progress: None,
        error: ErrorPatch::Write(clone_string(error)),
        completed: None,
    }
}

/// What the runtime decides to do with one step result.
pub enum StepDecision {
    /// Persist the new checkpoint and keep stepping.
    Continue(StatusPatch),
    /// Persist the error without marking terminal, then retry the step.
    RetryAfterError(StatusPatch),
    /// Persist terminal success and stop.
    FinishSuccess(StatusPatch),
    /// Persist terminal failure and stop.
    FinishFailure(StatusPatch),
}

pub enum StepDecisionModel {
    Continue(StatusPatchModel),
    RetryAfterError(StatusPatchModel),
    FinishSuccess(StatusPatchModel),
    FinishFailure(StatusPatchModel),
}

impl View for StepDecision {
    type V = StepDecisionModel;

    open spec fn view(&self) -> StepDecisionModel {
        match self {
            StepDecision::Continue(p) => StepDecisionModel::Continue(p@),
            StepDecision::RetryAfterError(p) => StepDecisionModel::RetryAfterError(p@),
            StepDecision::FinishSuccess(p) => StepDecisionModel::FinishSuccess(p@),
            StepDecision::FinishFailure(p) => StepDecisionModel::FinishFailure(p@),
        }
    }
}

/// The runtime's decision function: what one step result leads to, given the
/// remaining retry budget. A retryable failure is retried only while budget
/// remains; a non-retryable failure finishes the run at once, whatever the
/// budget.
pub open spec fn decide_step_spec(r: StepResultModel, retries_left: nat) -> StepDecisionModel {
    match r {
        StepResultModel::InProgress(p) => StepDecisionModel::Continue(continue_patch_model(p)),
        StepResultModel::Complete(_out) => StepDecisionModel::FinishSuccess(success_patch_model()),
        StepResultModel::Failed(e) => {
            if e.retryable && retries_left > 0 {
                StepDecisionModel::RetryAfterError(retry_patch_model(e.message))
            } else {
                StepDecisionModel::FinishFailure(failure_patch_model(e.message))
            }
        },
    }
}

/// Decide what to do with one step result.
pub fn decide_step(result: &StepResult, retries_left: u32) -> (d: StepDecision)
    ensures
        d@ == decide_step_spec(result@, retries_left as nat),
{
    match result {
        StepResult::InProgress(p) => StepDecision::Continue(continue_patch(p)),
        StepResult::Complete(_out) => StepDecision::FinishSuccess(success_patch()),
        StepResult::Failed(e) => {
            if e.retryable && retries_left > 0 {
                StepDecision::RetryAfterError(retry_patch(&e.message))
            } else {
                StepDecision::FinishFailure(failure_patch(&e.message))
            }
        },
    }
}

/// Retryable vs fatal: a non-retryable failure finishes the run immediately,
/// regardless of the remaining retry budget; a retryable one is retried
/// exactly while budget remains and finishes the run once it is spent.
pub proof fn lemma_retryable_vs_fatal(e: Seq<char>, fatal: Seq<char>, retries_left: nat)
    ensures
        decide_step_spec(
            StepResultModel::Failed(crate::capability::StepErrorModel { message: fatal, retryable: false }),
            retries_left,
        ) == StepDecisionModel::FinishFailure(failure_patch_model(fatal)),
        retries_left > 0 ==> decide_step_spec(
            StepResultModel::Failed(crate::capability::StepErrorModel { message: e, retryable: true }),
            retries_left,
        ) == StepDecisionModel::RetryAfterError(retry_patch_model(e)),
        decide_step_spec(
            StepResultModel::Failed(crate::capability::StepErrorModel { message: e, retryable: true }),
            0,
        ) == StepDecisionModel::FinishFailure(failure_patch_model(e)),
{
}

/// What the persisted record becomes when the runtime handles one step
/// result: in a terminal state nothing is invoked and nothing changes;
/// otherwise the decision's patch is merged in.
pub open spec fn runtime_transition(s: StatusModel, r: StepResultModel, retries_left: nat) -> StatusModel {
    if s.state.is_terminal() {
        s
    } else {
        apply_patch_spec(s, decision_patch(decide_step_spec(r, retries_left)))
    }
}

pub open spec fn decision_patch(d: StepDecisionModel) -> StatusPatchModel {
    match d {
        StepDecisionModel::Continue(p) => p,
        StepDecisionModel::RetryAfterError(p) => p,
        StepDecisionModel::FinishSuccess(p) => p,
        StepDecisionModel::FinishFailure(p) => p,
    }
}

/// Terminal states are sticky: once `Succeeded` or `Failed` is persisted, no
/// step result changes the record any further.
pub proof fn lemma_terminal_states_sticky(s: StatusModel, r: StepResultModel, retries_left: nat)
    requires
        s.state.is_terminal(),
    ensures
        runtime_transition(s, r, retries_left) == s,
{
}

/// Whether a fresh process instance reading this record should run at all: a
/// record already in a terminal state must not re-enter `Running`.
pub fn should_resume(status: &RecordStatus) -> (r: bool)
    ensures
        r == !status@.state.is_terminal(),
{
    !status.state.terminal()
}

/// The terminal outcome of a whole run, in the model.
pub enum ModelOutcome {
    /// The capability completed, with its final output.
    Succeeded(Seq<char>),
    /// The capability failed fatally or spent the retry budget; the error is
    /// the one it last reported.
    Failed(Seq<char>),
    /// The step budget ran out first.
    Timeout,
}

/// The run as a mathematical function: fold the capability's decision
/// function `f` over the checkpointed progress. An `InProgress` step moves
/// the checkpoint on; a retryable failure is re-invoked with the same
/// checkpoint while retry budget remains; `Complete` and non-retryable
/// failures end the run. Each invocation of `f` spends one unit of `fuel`,
/// the step budget standing for the overall deadline.
pub open spec fn run_model(
    f: spec_fn(Seq<char>) -> StepResultModel,
    progress: Seq<char>,
    retries_left: nat,
    fuel: nat,
) -> ModelOutcome
    decreases fuel,
{
    if fuel == 0 {
        ModelOutcome::Timeout
    } else {
        match f(progress) {
            StepResultModel::InProgress(p2) => run_model(f, p2, retries_left, (fuel - 1) as nat),
            StepResultModel::Complete(out) => ModelOutcome::Succeeded(out),
            StepResultModel::Failed(e) => {
                if e.retryable && retries_left > 0 {
                    run_model(f, progress, (retries_left - 1) as nat, (fuel - 1) as nat)
                } else {
                    ModelOutcome::Failed(e.message)
                }
            },
        }
    }
}

/// A capability that keeps failing retryably at some checkpoint drives the
/// run to `Failed` with that error once the retry budget is spent.
pub proof fn lemma_retry_exhaustion(
    f: spec_fn(Seq<char>) -> StepResultModel,
    progress: Seq<char>,
    retries_left: nat,
    fuel: nat,
)
    requires
        f(progress) matches StepResultModel::Failed(e) && e.retryable,
        fuel > retries_left,
    ensures
        run_model(f, progress, retries_left, fuel) == ModelOutcome::Failed(
            f(progress)->Failed_0.message,
        ),
    decreases retries_left,
{
    if retries_left > 0 {
        lemma_retry_exhaustion(f, progress, (retries_left - 1) as nat, (fuel - 1) as nat);
    }
}

/// The terminal outcome does not depend on the budgets: two runs of the same
/// capability from the same checkpoint that both finish in time agree, even
/// with different retry and step budgets.
pub proof fn lemma_run_model_unique(
    f: spec_fn(Seq<char>) -> StepResultModel,
    progress: Seq<char>,
    r1: nat,
    fuel1: nat,
    r2: nat,
    fuel2: nat,
)
    requires
        run_model(f, progress, r1, fuel1) != ModelOutcome::Timeout,
        run_model(f, progress, r2, fuel2) != ModelOutcome::Timeout,
    ensures
        run_model(f, progress, r1, fuel1) == run_model(f, progress, r2, fuel2),
    decreases fuel1 + fuel2,
{
    match f(progress) {
        StepResultModel::InProgress(p2) => {
            lemma_run_model_unique(f, p2, r1, (fuel1 - 1) as nat, r2, (fuel2 - 1) as nat);
        },
        StepResultModel::Complete(_out) => {},
        StepResultModel::Failed(e) => {
            if e.retryable {
                if r1 > 0 && r2 > 0 {
                    lemma_run_model_unique(
                        f,
                        progress,
                        (r1 - 1) as nat,
                        (fuel1 - 1) as nat,
                        (r2 - 1) as nat,
                        (fuel2 - 1) as nat,
                    );
                } else if r1 > 0 {
                    lemma_run_model_unique(f, progress, (r1 - 1) as nat, (fuel1 - 1) as nat, r2, fuel2);
                } else if r2 > 0 {
                    lemma_run_model_unique(f, progress, r1, fuel1, (r2 - 1) as nat, (fuel2 - 1) as nat);
                }
            }
        },
    }
}

/// The checkpoint reached after `k` consecutive `InProgress` steps from
/// `progress`, if the run indeed moves through `k` such steps.
pub open spec fn advance(
    f: spec_fn(Seq<char>) -> StepResultModel,
    progress: Seq<char>,
    k: nat,
) -> Option<Seq<char>>
    decreases k,
{
    if k == 0 {
        Some(progress)
    } else {
        match f(progress) {
            StepResultModel::InProgress(p2) => advance(f, p2, (k - 1) as nat),
            _ => None,
        }
    }
}

/// Idempotent resumption: kill the agent after any number of persisted
/// `InProgress` checkpoints and restart it from the checkpoint it left on
/// the record — with fresh budgets — and it reaches the same terminal
/// outcome as a run that was never interrupted, provided both runs finish in
/// time. (A capability that meets its stated contract decides each step from
/// the spec and checkpoint alone, which is what `f` expresses; persisting an
/// error before a retry leaves the checkpoint unchanged, so every restart
/// point is one reached by `advance`.)
pub proof fn theorem_idempotent_resumption(
    f: spec_fn(Seq<char>) -> StepResultModel,
    progress: Seq<char>,
    k: nat,
    r1: nat,
    fuel1: nat,
    r2: nat,
    fuel2: nat,
)
    requires
        advance(f, progress, k) is Some,
        run_model(f, progress, r1, fuel1) != ModelOutcome::Timeout,
        run_model(f, advance(f, progress, k)->Some_0, r2, fuel2) != ModelOutcome::Timeout,
    ensures
        run_model(f, progress, r1, fuel1) == run_model(f, advance(f, progress, k)->Some_0, r2, fuel2),
    decreases k,
{
    if k == 0 {
        lemma_run_model_unique(f, progress, r1, fuel1, r2, fuel2);
    } else {
        let p2 = f(progress)->InProgress_0;
        theorem_idempotent_resumption(f, p2, (k - 1) as nat, r1, (fuel1 - 1) as nat, r2, fuel2);
    }
}

/// The capability's decision function, as the runtime sees it: the record's
/// declarative spec is fixed for the whole run.
pub open spec fn cap_fn<C: Capability>(cap: C, resource_spec: Seq<char>) -> spec_fn(Seq<char>) -> StepResultModel {
    |p: Seq<char>| cap.model(resource_spec, p)
}

/// How a whole run ended, as reported to the process edge.
pub enum RunOutcome {
    /// Terminal success, with the capability's final output.
    Succeeded { output: String },
    /// Terminal failure, with the error the capability last reported.
    Failed { error: String },
    /// The step budget ran out; the record was marked failed.
    TimedOut,
    /// A status write exhausted the record client's retries; the process can
    /// no longer report progress and must exit without further steps.
    PersistFailed,
    /// The record was already terminal when the run started; no step was
    /// invoked.
    AlreadyTerminal { succeeded: bool },
}

/// Whether an outcome reported at the process edge agrees with the model's.
pub open spec fn outcome_matches(r: RunOutcome, m: ModelOutcome) -> bool {
    match r {
        RunOutcome::Succeeded { output } => m == ModelOutcome::Succeeded(output@),
        RunOutcome::Failed { error } => m == ModelOutcome::Failed(error@),
        RunOutcome::TimedOut => m == ModelOutcome::Timeout,
        RunOutcome::PersistFailed => false,
        RunOutcome::AlreadyTerminal { .. } => false,
    }
}

/// The process exit protocol: exit code zero exactly on terminal success.
pub fn exit_code(outcome: &RunOutcome) -> (c: i32)
    ensures
        (c == 0) <==> (outcome matches RunOutcome::Succeeded { .. } || (
        outcome matches RunOutcome::AlreadyTerminal { succeeded } && *succeeded)),
{
    match outcome {
        RunOutcome::Succeeded { .. } => 0,
        RunOutcome::AlreadyTerminal { succeeded } => if *succeeded { 0 } else { 1 },
        _ => 1,
    }
}

pub open spec fn prior_terminal(prior: Option<&RecordStatus>) -> bool {
    match prior {
        Some(s) => s@.state.is_terminal(),
        None => false,
    }
}

pub open spec fn prior_succeeded(prior: Option<&RecordStatus>) -> bool {
    match prior {
        Some(s) => s@.state is Succeeded,
        None => false,
    }
}

/// The checkpoint a run starts from: the record's persisted progress, or the
/// empty payload when the record is absent or holds none.
pub open spec fn prior_progress_model(prior: Option<&RecordStatus>) -> Seq<char> {
    match prior {
        Some(s) => match s@.progress {
            Some(p) => p,
            None => Seq::empty(),
        },
        None => Seq::empty(),
    }
}

/// An agent: one capability (the role the process was configured with), one
/// status sink to persist through, the owned record's declarative spec, and
/// the two budgets. Construction is plain dependency injection: the caller
/// passes the concrete capability and sink implementations.
pub struct Agent<C: Capability, S: StatusSink> {
    pub capability: C,
    pub sink: S,
    pub resource_spec: String,
    pub max_retries: u32,
    pub max_steps: u32,
}

impl<C: Capability, S: StatusSink> Agent<C, S> {
    /// Drive the capability from the record's persisted state to a terminal
    /// outcome, persisting after every step.
    ///
    /// A record already terminal is left alone: the run reports
    /// `AlreadyTerminal` and invokes no step. Otherwise the outcome is
    /// exactly the model's for this capability, spec, checkpoint and
    /// budgets — unless a status write fails after the record client's own
    /// retries, which ends the process (`PersistFailed`) since progress can
    /// no longer be reported.
    pub fn run(&mut self, prior: Option<&RecordStatus>) -> (r: RunOutcome)
        ensures
            final(self).capability == old(self).capability,
            final(self).resource_spec == old(self).resource_spec,
            final(self).max_retries == old(self).max_retries,
            final(self).max_steps == old(self).max_steps,
            prior_terminal(prior) ==> r == (RunOutcome::AlreadyTerminal {
                succeeded: prior_succeeded(prior),
            }),
            !prior_terminal(prior) ==> (r is PersistFailed || outcome_matches(
                r,
                run_model(
                    cap_fn(old(self).capability, old(self).resource_spec@),
                    prior_progress_model(prior),
                    old(self).max_retries as nat,
                    old(self).max_steps as nat,
                ),
            )),
    {
        if let Some(s) = prior {
            if s.state.terminal() {
                return RunOutcome::AlreadyTerminal {
                    succeeded: matches!(s.state, LifecycleState::Succeeded),
                };
            }
        }
        let mut progress: String = match prior {
            Some(s) => match &s.progress {
                Some(p) => clone_string(p),
                None => String::new(),
            },
            None => String::new(),
        };
        let mut retries_left: u32 = self.max_retries;
        let mut steps_left: u32 = self.max_steps;
        let ghost f = cap_fn(self.capability, self.resource_spec@);
        let ghost target = run_model(f, progress@, retries_left as nat, steps_left as nat);
        loop
            invariant
                !prior_terminal(prior),
                self.capability == old(self).capability,
                self.resource_spec == old(self).resource_spec,
                self.max_retries == old(self).max_retries,
                self.max_steps == old(self).max_steps,
                f == cap_fn(self.capability, self.resource_spec@),
                run_model(f, progress@, retries_left as nat, steps_left as nat) == target,
                target == run_model(
                    cap_fn(old(self).capability, old(self).resource_spec@),
                    prior_progress_model(prior),
                    old(self).max_retries as nat,
                    old(self).max_steps as nat,
                ),
            decreases steps_left,
        {
            if steps_left == 0 {
                let patch = failure_patch(&budget_exhausted_message());
                return match self.sink.persist(&patch) {
                    Ok(()) => RunOutcome::TimedOut,
                    Err(_) => RunOutcome::PersistFailed,
                };
            }
            let result = self.capability.step(self.resource_spec.as_str(), progress.as_str());
            steps_left = steps_left - 1;
            let decision = decide_step(&result, retries_left);
            match decision {
                StepDecision::Continue(patch) => {
                    match self.sink.persist(&patch) {
                        Ok(()) => {
                            progress = match patch.progress {
                                Some(p) => p,
                                None => unreached(),
                            };
                        },
                        Err(_) => {
                            return RunOutcome::PersistFailed;
                        },
                    }
                },
                StepDecision::RetryAfterError(patch) => {
                    match self.sink.persist(&patch) {
                        Ok(()) => {
                            retries_left = retries_left - 1;
                        },
                        Err(_) => {
                            return RunOutcome::PersistFailed;
                        },
                    }
                },
                StepDecision::FinishSuccess(patch) => {
                    let output = match result {
                        StepResult::Complete(out) => out,
                        _ => unreached(),
                    };
                    return match self.sink.persist(&patch) {
                        Ok(()) => RunOutcome::Succeeded { output },
                        Err(_) => RunOutcome::PersistFailed,
                    };
                },
                StepDecision::FinishFailure(patch) => {
                    let error = match result {
                        StepResult::Failed(e) => e.message,
                        _ => unreached(),
                    };
                    return match self.sink.persist(&patch) {
                        Ok(()) => RunOutcome::Failed { error },
                        Err(_) => RunOutcome::PersistFailed,
                    };
                },
            }
        }
    }
}

/// The error message persisted when the step budget runs out.
pub fn budget_exhausted_message() -> (r: String)
    ensures
        r@ == "agent deadline exceeded"@,
{
    String::from_str("agent deadline exceeded")
}

} // verus!

//! The pluggable provisioning capability interface.
//!
//! A capability supplies the resource-type-specific work — how to create or
//! destroy one kind of resource — while the runtime supplies orchestration,
//! status persistence and failure handling. A capability's step function is
//! invoked with the record's declarative spec and the last checkpointed
//! progress payload, and reports how far it got.

use vstd::prelude::*;

verus! {

/// An error reported by a capability step. `retryable` distinguishes
/// transient provider failures (worth re-invoking the step) from permanent
/// ones (the runtime must stop and report failure).
pub struct StepError {
    pub message: String,
    pub retryable: bool,
}

/// Text payloads as contracts see them.
pub type Text = Seq<char>;

pub struct StepErrorModel {
    pub message: Seq<char>,
    pub retryable: bool,
}

impl View for StepError {
    type V = StepErrorModel;

    open spec fn view(&self) -> StepErrorModel {
        StepErrorModel { message: self.message@, retryable: self.retryable }
    }
}

/// The outcome of one capability step.
pub enum StepResult {
    /// More steps remain; the runtime persists the new progress payload and
    /// calls the capability again.
    InProgress(String),
    /// Terminal success, with the capability's final output.
    Complete(String),
    /// This attempt failed; the flag inside says whether it may be retried.
    Failed(StepError),
}

pub enum StepResultModel {
    InProgress(Seq<char>),
    Complete(Seq<char>),
    Failed(StepErrorModel),
}

impl View for StepResult {
    type V = StepResultModel;

    open spec fn view(&self) -> StepResultModel {
        match self {
            StepResult::InProgress(p) => StepResultModel::InProgress(p@),
            StepResult::Complete(o) => StepResultModel::Complete(o@),
            StepResult::Failed(e) => StepResultModel::Failed(e@),
        }
    }
}

/// A provisioning capability: the narrow extension point each resource type
/// implements. An agent process is configured with exactly one role — a
/// create-role capability whose step stands up the resource, or a
/// destroy-role capability whose step tears it down — and the runtime is
/// polymorphic over it.
///
/// The capability contract demands idempotency: because the process may be
/// killed and restarted at any point, a step may be re-invoked with the same
/// prior progress, and must then take the same decision — all per-call state
/// must be keyed on data embedded in the progress payload. `model` is the
/// implementation's own statement of that decision function, and `step` must
/// return exactly what `model` says for its arguments.
pub trait Capability: Sized {
    /// The step as a mathematical function of the record's spec and the
    /// checkpointed progress.
    spec fn model(&self, resource_spec: Text, progress: Text) -> StepResultModel;

    /// Perform one provisioning step.
    fn step(&self, resource_spec: &str, prior_progress: &str) -> (r: StepResult)
        ensures
            r@ == self.model(resource_spec@, prior_progress@),
    ;
}

} // verus!

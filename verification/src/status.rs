//! The persisted status subtree of a custom resource record, and the
//! merge-patch semantics used to update it.
//!
//! The record is the sole durable memory of an agent's progress. Agents never
//! replace the status wholesale: every write is a merge patch, so fields the
//! writer leaves untouched keep their previous values.

use vstd::prelude::*;

verus! {

/// Lifecycle state of an agent's owned custom resource record.
#[derive(Clone, Copy, Debug, PartialEq, Eq, Structural)]
pub enum LifecycleState {
    Starting,
    Running,
    Succeeded,
    Failed,
}

impl LifecycleState {
    /// A terminal state admits no further steps.
    pub open spec fn is_terminal(self) -> bool {
        self is Succeeded || self is Failed
    }

    pub fn terminal(&self) -> (r: bool)
        ensures
            r == self.is_terminal(),
    {
        matches!(self, LifecycleState::Succeeded | LifecycleState::Failed)
    }
}

/// Mathematical model of a status subtree.
pub struct StatusModel {
    pub state: LifecycleState,
    pub progress: Option<Seq<char>>,
    pub error: Option<Seq<char>>,
    pub completed: bool,
}

/// The status subtree persisted on the record:
/// `{state, progress, error, completed}`.
///
/// `progress` is the opaque per-capability checkpoint payload; `error` is the
/// last error reported, if any; `completed` is set exactly when a terminal
/// state is persisted.
#[derive(Debug)]
pub struct RecordStatus {
    pub state: LifecycleState,
    pub progress: Option<String>,
    pub error: Option<String>,
    pub completed: bool,
}

impl View for RecordStatus {
    type V = StatusModel;

    open spec fn view(&self) -> StatusModel {
        StatusModel {
            state: self.state,
            progress: match self.progress {
                Some(p) => Some(p@),
                None => None,
            },
            error: match self.error {
                Some(e) => Some(e@),
                None => None,
            },
            completed: self.completed,
        }
    }
}

impl RecordStatus {
    /// The status a record starts with before any agent has written to it.
    pub fn fresh() -> (r: RecordStatus)
        ensures
            r@ == fresh_status(),
    {
        RecordStatus { state: LifecycleState::Starting, progress: None, error: None, completed: false }
    }
}

pub open spec fn fresh_status() -> StatusModel {
    StatusModel { state: LifecycleState::Starting, progress: None, error: None, completed: false }
}

/// A merge-patch update for the `error` field: leave it, set it, or clear it.
pub enum ErrorPatch {
    Keep,
    Write(String),
    Clear,
}

pub enum ErrorPatchModel {
    Keep,
    Write(Seq<char>),
    Clear,
}

impl View for ErrorPatch {
    type V = ErrorPatchModel;

    open spec fn view(&self) -> ErrorPatchModel {
        match self {
            ErrorPatch::Keep => ErrorPatchModel::Keep,
            ErrorPatch::Write(e) => ErrorPatchModel::Write(e@),
            ErrorPatch::Clear => ErrorPatchModel::Clear,
        }
    }
}

/// A merge patch over the status subtree: each field is either left untouched
/// (`None` / `Keep`) or written. Fields absent from the patch keep whatever
/// value the record already holds.
pub struct StatusPatch {
    pub state: Option<LifecycleState>,
    pub progress: Option<String>,
    pub error: ErrorPatch,
    pub completed: Option<bool>,
}

pub struct StatusPatchModel {
    pub state: Option<LifecycleState>,
    pub progress: Option<Seq<char>>,
    pub error: ErrorPatchModel,
    pub completed: Option<bool>,
}

impl View for StatusPatch {
    type V = StatusPatchModel;

    open spec fn view(&self) -> StatusPatchModel {
        StatusPatchModel {
            state: self.state,
            progress: match self.progress {
                Some(p) => Some(p@),
                None => None,
            },
            error: self.error@,
            completed: self.completed,
        }
    }
}

/// What a merge patch does to a status subtree: each field set in the patch
/// takes the patch's value, every other field is left untouched.
pub open spec fn apply_patch_spec(s: StatusModel, p: StatusPatchModel) -> StatusModel {
    StatusModel {
        state: match p.state {
            Some(st) => st,
            None => s.state,
        },
        progress: match p.progress {
            Some(pr) => Some(pr),
            None => s.progress,
        },
        error: match p.error {
            ErrorPatchModel::Keep => s.error,
            ErrorPatchModel::Write(e) => Some(e),
            ErrorPatchModel::Clear => None,
        },
        completed: match p.completed {
            Some(c) => c,
            None => s.completed,
        },
    }
}

/// Merge `patch` into `status`, field by field.
pub fn apply_patch(status: &RecordStatus, patch: &StatusPatch) -> (r: RecordStatus)
    ensures
        r@ == apply_patch_spec(status@, patch@),
{
    let state = match &patch.state {
        Some(st) => *st,
        None => status.state,
    };
    let progress = match &patch.progress {
        Some(p) => Some(clone_string(p)),
        None => clone_opt_string(&status.progress),
    };
    let error = match &patch.error {
        ErrorPatch::Keep => clone_opt_string(&status.error),
        ErrorPatch::Write(e) => Some(clone_string(e)),
        ErrorPatch::Clear => None,
    };
    let completed = match &patch.completed {
        Some(c) => *c,
        None => status.completed,
    };
    RecordStatus { state, progress, error, completed }
}

/// Copy a string; the copy has the same characters.
pub fn clone_string(s: &String) -> (r: String)
    ensures
        r@ == s@,
{
    String::from_str(s.as_str())
}

/// Copy an optional string; the copy holds the same characters.
pub fn clone_opt_string(s: &Option<String>) -> (r: Option<String>)
    ensures
        r.deep_view() == s.deep_view(),
        match (s, &r) {
            (Some(a), Some(b)) => a@ == b@,
            (None, None) => true,
            _ => false,
        },
{
    match s {
        Some(x) => Some(clone_string(x)),
        None => None,
    }
}

/// What a create-or-update write leaves on the control plane: if the record
/// already exists the patch is merged into it; if it is absent, the record is
/// created with the patch applied to a fresh status.
pub open spec fn create_or_update_spec(existing: Option<StatusModel>, p: StatusPatchModel) -> StatusModel {
    match existing {
        Some(s) => apply_patch_spec(s, p),
        None => apply_patch_spec(fresh_status(), p),
    }
}

/// Two patches are disjoint when no field is written by both.
pub open spec fn disjoint_patches(p1: StatusPatchModel, p2: StatusPatchModel) -> bool {
    &&& !(p1.state is Some && p2.state is Some)
    &&& !(p1.progress is Some && p2.progress is Some)
    &&& !(!(p1.error is Keep) && !(p2.error is Keep))
    &&& !(p1.completed is Some && p2.completed is Some)
}

/// Merge, not replace: applying two disjoint patches in sequence yields the
/// union of both writes — every field written by the first patch survives the
/// second, every field written by the second takes effect, and untouched
/// fields keep the original record's values. In particular the order of the
/// two writes does not matter.
pub proof fn lemma_merge_not_replace(s: StatusModel, p1: StatusPatchModel, p2: StatusPatchModel)
    requires
        disjoint_patches(p1, p2),
    ensures
        ({
            let merged = apply_patch_spec(apply_patch_spec(s, p1), p2);
            &&& (p1.state matches Some(st) ==> merged.state == st)
            &&& (p2.state matches Some(st) ==> merged.state == st)
            &&& (p1.progress matches Some(pr) ==> merged.progress == Some(pr))
            &&& (p2.progress matches Some(pr) ==> merged.progress == Some(pr))
            &&& (p1.error matches ErrorPatchModel::Write(e) ==> merged.error == Some(e))
            &&& (p2.error matches ErrorPatchModel::Write(e) ==> merged.error == Some(e))
            &&& (p1.completed matches Some(c) ==> merged.completed == c)
            &&& (p2.completed matches Some(c) ==> merged.completed == c)
            &&& (p1.state is None && p2.state is None ==> merged.state == s.state)
            &&& (p1.progress is None && p2.progress is None ==> merged.progress == s.progress)
            &&& (p1.error is Keep && p2.error is Keep ==> merged.error == s.error)
            &&& (p1.completed is None && p2.completed is None ==> merged.completed == s.completed)
            &&& merged == apply_patch_spec(apply_patch_spec(s, p2), p1)
        }),
{
}

/// The same union property stated for two create-or-update writes: the first
/// write may create the record, the second merges into it, and both writes'
/// fields are present afterwards.
pub proof fn lemma_create_or_update_union(
    existing: Option<StatusModel>,
    p1: StatusPatchModel,
    p2: StatusPatchModel,
)
    requires
        disjoint_patches(p1, p2),
    ensures
        ({
            let after = create_or_update_spec(
                Some(create_or_update_spec(existing, p1)),
                p2,
            );
            &&& (p1.state matches Some(st) ==> after.state == st)
            &&& (p2.state matches Some(st) ==> after.state == st)
            &&& (p1.progress matches Some(pr) ==> after.progress == Some(pr))
            &&& (p2.progress matches Some(pr) ==> after.progress == Some(pr))
            &&& (p1.error matches ErrorPatchModel::Write(e) ==> after.error == Some(e))
            &&& (p2.error matches ErrorPatchModel::Write(e) ==> after.error == Some(e))
            &&& (p1.completed matches Some(c) ==> after.completed == c)
            &&& (p2.completed matches Some(c) ==> after.completed == c)
        }),
{
}

} // verus!

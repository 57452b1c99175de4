//! The control-plane record client: create-or-update writes with a bounded
//! number of attempts and a fixed inter-attempt delay.
//!
//! One write is a get-then-write: if the record exists the caller's patch is
//! merged into it, if it is absent the record is created fresh. The get and
//! the write are not atomic, so a record created concurrently between them
//! makes the create fail; the whole operation is then retried, which
//! tolerates that race without any optimistic-concurrency token.

use vstd::prelude::*;
use crate::status::{RecordStatus, StatusPatch, apply_patch};

verus! {

/// A control-plane write exhausted its bounded retries. `what` is the
/// caller-supplied label identifying the logical write, for diagnostics.
#[derive(Debug)]
pub enum ClientError {
    CreationFailed { what: String },
}

/// What one raw control-plane call reported on failure.
#[derive(Debug)]
pub struct ApiFailure {
    pub message: String,
}

/// The bounded number of attempts one create-or-update write makes.
pub const MAX_RETRIES: u32 = 3;

/// The fixed delay, in milliseconds, between two attempts.
pub const BACKOFF_MS: u64 = 500;

/// The raw typed operations against the control-plane API for the one
/// custom-resource kind an agent owns. The process's unverified edge
/// implements this over its HTTP client; each call's outcome is decided by
/// the outside world, so nothing is promised of it and the client's logic is
/// verified for every outcome.
pub trait RecordApi: Sized {
    /// Fetch the named record's status; an error also stands for "absent".
    fn fetch(&mut self, name: &str) -> (r: Result<RecordStatus, ApiFailure>);

    /// Merge-patch the named record's status subtree.
    fn patch_merge(&mut self, name: &str, patch: &StatusPatch) -> (r: Result<(), ApiFailure>);

    /// Create the named record with the given initial status.
    fn create(&mut self, name: &str, status: &RecordStatus) -> (r: Result<(), ApiFailure>);

    /// Wait the fixed inter-attempt delay (`BACKOFF_MS`).
    fn pause(&mut self);
}

/// Writing new progress or status onto the owned record: the narrow
/// persistence interface the runtime depends on. Implemented by
/// [`RecordClient`] over a [`RecordApi`]; the outside world decides whether a
/// write succeeds, so nothing is promised of the result.
pub trait StatusSink: Sized {
    /// Persist one status merge patch for the owned record.
    fn persist(&mut self, patch: &StatusPatch) -> (r: Result<(), ClientError>);
}

/// One attempt of a create-or-update write: fetch the record by name; if it
/// is there, merge the patch into it; if the fetch fails (the record is
/// absent, or the control plane is unreachable), create it fresh with the
/// patch applied to an empty status. The outcome is decided by the
/// control-plane calls, so no more can be said of it; the caller retries the
/// whole operation on failure.
pub fn create_or_update_internal<A: RecordApi>(
    api: &mut A,
    name: &str,
    patch: &StatusPatch,
) -> (r: Result<(), ApiFailure>) {
    match api.fetch(name) {
        Ok(_existing) => api.patch_merge(name, patch),
        Err(_) => {
            let fresh = apply_patch(&RecordStatus::fresh(), patch);
            api.create(name, &fresh)
        },
    }
}

/// A create-or-update write with the client's retry policy: up to
/// `max_attempts` attempts, a fixed pause after each failed one, stopping at
/// the first success. Exhausting the attempts surfaces
/// `ClientError::CreationFailed` carrying the caller's `what` label.
pub fn create_or_update<A: RecordApi>(
    api: &mut A,
    name: &str,
    patch: &StatusPatch,
    what: &str,
    max_attempts: u32,
) -> (r: Result<(), ClientError>)
    ensures
        r matches Err(e) ==> (e matches ClientError::CreationFailed { what: w } && w@ == what@),
{
    let mut error: Option<ApiFailure> = None;
    let mut i: u32 = 0;
    while i < max_attempts
        invariant
            i <= max_attempts,
            i > 0 ==> error is Some,
        decreases max_attempts - i,
    {
        match create_or_update_internal(api, name, patch) {
            Ok(()) => return Ok(()),
            Err(e) => {
                error = Some(e);
            },
        }
        api.pause();
        i = i + 1;
    }
    match error {
        None => Ok(()),
        Some(_last) => Err(ClientError::CreationFailed { what: String::from_str(what) }),
    }
}

/// The record client the runtime persists through: a [`RecordApi`] plus the
/// owned record's name, a diagnostic label, and the attempt bound.
pub struct RecordClient<A: RecordApi> {
    pub api: A,
    pub record_name: String,
    pub what: String,
    pub max_attempts: u32,
}

impl<A: RecordApi> StatusSink for RecordClient<A> {
    fn persist(&mut self, patch: &StatusPatch) -> (r: Result<(), ClientError>) {
        create_or_update(
            &mut self.api,
            self.record_name.as_str(),
            patch,
            self.what.as_str(),
            self.max_attempts,
        )
    }
}

/// The attempt policy as a mathematical function: given what each attempt
/// would report (`true` for success) and the attempt bound, how many attempts
/// the client makes — it stops at the first success, else at the bound.
pub open spec fn client_attempts(outcomes: Seq<bool>, max: nat) -> nat
    decreases max,
{
    if max == 0 || outcomes.len() == 0 {
        0
    } else if outcomes[0] {
        1
    } else {
        1 + client_attempts(outcomes.drop_first(), (max - 1) as nat)
    }
}

/// Whether the write as a whole succeeds: some attempt within the bound does.
pub open spec fn client_succeeds(outcomes: Seq<bool>, max: nat) -> bool
    decreases max,
{
    if max == 0 || outcomes.len() == 0 {
        false
    } else if outcomes[0] {
        true
    } else {
        client_succeeds(outcomes.drop_first(), (max - 1) as nat)
    }
}

/// Bounded retry termination: against a permanently failing backend the
/// client makes exactly `max` attempts — not one more, not one fewer — and
/// then surfaces the failure.
pub proof fn lemma_bounded_retry_termination(outcomes: Seq<bool>, max: nat)
    requires
        outcomes.len() >= max,
        forall|i: int| 0 <= i < outcomes.len() ==> !outcomes[i],
    ensures
        client_attempts(outcomes, max) == max,
        !client_succeeds(outcomes, max),
    decreases max,
{
    if max != 0 && outcomes.len() != 0 {
        lemma_bounded_retry_termination(outcomes.drop_first(), (max - 1) as nat);
    }
}

/// A success within the bound stops the attempts right there: after `k`
/// failures and one success the client has made exactly `k + 1` attempts.
pub proof fn lemma_retry_stops_at_success(outcomes: Seq<bool>, max: nat, k: nat)
    requires
        k < max,
        k < outcomes.len(),
        forall|i: int| 0 <= i < k ==> !outcomes[i],
        outcomes[k as int],
    ensures
        client_attempts(outcomes, max) == k + 1,
        client_succeeds(outcomes, max),
    decreases k,
{
    if k != 0 {
        lemma_retry_stops_at_success(outcomes.drop_first(), (max - 1) as nat, (k - 1) as nat);
    }
}

} // verus!

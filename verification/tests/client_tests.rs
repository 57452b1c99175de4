use std::cell::{Cell, RefCell};

use agent_runtime::client::{
    create_or_update, ApiFailure, ClientError, RecordApi, RecordClient, StatusSink, BACKOFF_MS,
    MAX_RETRIES,
};
use agent_runtime::status::{apply_patch, ErrorPatch, LifecycleState, RecordStatus, StatusPatch};

/// An in-memory control plane, with a script of which attempts fail.
struct MemoryApi {
    record: RefCell<Option<RecordStatus>>,
    fetches: Cell<u32>,
    pauses: Cell<u32>,
    /// Fail the first `failures` write attempts.
    failures: Cell<u32>,
}

impl MemoryApi {
    fn new(failures: u32) -> Self {
        MemoryApi {
            record: RefCell::new(None),
            fetches: Cell::new(0),
            pauses: Cell::new(0),
            failures: Cell::new(failures),
        }
    }

    fn record(&self) -> Option<RecordStatus> {
        self.record.borrow().as_ref().map(|s| RecordStatus {
            state: s.state,
            progress: s.progress.clone(),
            error: s.error.clone(),
            completed: s.completed,
        })
    }

    fn failing(&self) -> bool {
        if self.failures.get() > 0 {
            self.failures.set(self.failures.get() - 1);
            true
        } else {
            false
        }
    }
}

impl RecordApi for MemoryApi {
    fn fetch(&mut self, _name: &str) -> Result<RecordStatus, ApiFailure> {
        self.fetches.set(self.fetches.get() + 1);
        match self.record.borrow().as_ref() {
            Some(s) => Ok(RecordStatus {
                state: s.state,
                progress: s.progress.clone(),
                error: s.error.clone(),
                completed: s.completed,
            }),
            None => Err(ApiFailure { message: String::from("not found") }),
        }
    }

    fn patch_merge(&mut self, _name: &str, patch: &StatusPatch) -> Result<(), ApiFailure> {
        if self.failing() {
            return Err(ApiFailure { message: String::from("server unavailable") });
        }
        let current = self.record.borrow_mut().take().expect("patch of existing record");
        *self.record.borrow_mut() = Some(apply_patch(&current, patch));
        Ok(())
    }

    fn create(&mut self, _name: &str, status: &RecordStatus) -> Result<(), ApiFailure> {
        if self.failing() {
            return Err(ApiFailure { message: String::from("server unavailable") });
        }
        *self.record.borrow_mut() = Some(RecordStatus {
            state: status.state,
            progress: status.progress.clone(),
            error: status.error.clone(),
            completed: status.completed,
        });
        Ok(())
    }

    fn pause(&mut self) {
        self.pauses.set(self.pauses.get() + 1);
    }
}

fn progress_patch(p: &str) -> StatusPatch {
    StatusPatch {
        state: Some(LifecycleState::Running),
        progress: Some(String::from(p)),
        error: ErrorPatch::Keep,
        completed: None,
    }
}

#[test]
fn permanent_failure_makes_exactly_three_attempts() {
    let mut api = MemoryApi::new(u32::MAX);
    let r = create_or_update(&mut api, "res-1", &progress_patch("p"), "progress write", MAX_RETRIES);
    match r {
        Err(ClientError::CreationFailed { what }) => assert_eq!(what, "progress write"),
        Ok(()) => panic!("expected exhaustion"),
    }
    // Exactly three whole attempts, each followed by the fixed pause.
    assert_eq!(api.fetches.get(), 3);
    assert_eq!(api.pauses.get(), 3);
}

#[test]
fn success_on_second_attempt_stops_retrying() {
    let mut api = MemoryApi::new(1);
    let r = create_or_update(&mut api, "res-1", &progress_patch("p"), "progress write", MAX_RETRIES);
    assert!(r.is_ok());
    assert_eq!(api.fetches.get(), 2);
    assert_eq!(api.pauses.get(), 1);
    assert_eq!(api.record().expect("created").progress.as_deref(), Some("p"));
}

#[test]
fn absent_record_is_created_then_updated() {
    let mut api = MemoryApi::new(0);
    assert!(create_or_update(&mut api, "res-1", &progress_patch("first"), "w", MAX_RETRIES).is_ok());
    let created = api.record().expect("created");
    assert!(matches!(created.state, LifecycleState::Running));
    assert_eq!(created.progress.as_deref(), Some("first"));
    assert!(!created.completed);

    assert!(create_or_update(&mut api, "res-1", &progress_patch("second"), "w", MAX_RETRIES).is_ok());
    assert_eq!(api.record().expect("updated").progress.as_deref(), Some("second"));
}

#[test]
fn disjoint_writes_accumulate() {
    // Two create-or-update writes with disjoint field sets: the record ends
    // with the union of both.
    let mut api = MemoryApi::new(0);
    let first = StatusPatch {
        state: None,
        progress: Some(String::from("vpc-id=X")),
        error: ErrorPatch::Keep,
        completed: None,
    };
    let second = StatusPatch {
        state: None,
        progress: None,
        error: ErrorPatch::Write(String::from("throttled")),
        completed: None,
    };
    assert!(create_or_update(&mut api, "res-1", &first, "w", MAX_RETRIES).is_ok());
    assert!(create_or_update(&mut api, "res-1", &second, "w", MAX_RETRIES).is_ok());
    let record = api.record().expect("record exists");
    assert_eq!(record.progress.as_deref(), Some("vpc-id=X"));
    assert_eq!(record.error.as_deref(), Some("throttled"));
}

#[test]
fn record_client_persists_through_the_api() {
    let mut client = RecordClient {
        api: MemoryApi::new(0),
        record_name: String::from("res-1"),
        what: String::from("status"),
        max_attempts: MAX_RETRIES,
    };
    assert!(client.persist(&progress_patch("p1")).is_ok());
    assert_eq!(client.api.record().expect("created").progress.as_deref(), Some("p1"));
}

#[test]
fn retry_policy_constants() {
    assert_eq!(MAX_RETRIES, 3);
    assert_eq!(BACKOFF_MS, 500);
}

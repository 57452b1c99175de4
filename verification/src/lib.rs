//! Verified core of a control-plane test-orchestration agent runtime.
//!
//! A short-lived agent process owns one custom resource record and drives a
//! multi-step create-or-destroy protocol against an external provider,
//! persisting its progress to the control plane after every step so that a
//! restarted process can resume where the previous one left off.
//!
//! This crate holds the verified logic: the lifecycle state machine, the
//! merge-patch semantics used to persist status, the bounded-retry record
//! client, the bootstrap-data validation, and the pure transforms (registry
//! credentials, test-record construction). Process I/O, the control-plane
//! HTTP client and the async plumbing live outside, behind the narrow traits
//! declared here.

pub mod bootstrap;
pub mod capability;
pub mod client;
pub mod registry;
pub mod runtime;
pub mod sonobuoy;
pub mod status;

//! Controller framework for building Kubernetes operators.
//!
//! [`ControllerBuilder`] collects what every production operator needs: graceful
//! shutdown, health probes, metrics, leader election and per-reconcile timeouts.
//! [`ControllerBuilder::run`] says what is to be started, and in which order;
//! [`Readiness`] answers the health probes; [`try_acquire_or_renew`],
//! [`acquire_leader_lease`] and [`LeaseRenewal`] decide on leadership;
//! [`conclude_reconcile`] says what follows from a reconcile call.

pub mod builder;
pub mod context;
pub mod election;
pub mod health;
pub mod leadership;
pub mod lease;
pub mod reconcile;
pub mod run;
pub mod watcher;

pub use builder::{Configure, ControllerBuilder};
pub use context::Context;
pub use election::{
    try_acquire_or_renew, ApiFailure, LeaderElectionConfig, LeaseAction, LeaseEvent,
};
pub use health::{HealthResponse, LoopItem, Readiness};
pub use kube_runtime::controller::Action;
pub use kube_runtime::reflector::ObjectRef;
pub use leadership::{
    acquire_leader_lease, AcquireAction, AcquireEvent, LeaseRenewal, RenewAction, StopReason,
};
pub use lease::{build_lease, Lease, LeaseSpec, ObjectMeta};
pub use reconcile::{
    conclude_reconcile, Measurement, ReconcileEnd, ReconcileOutcome, Reconciler,
};
pub use run::{ControllerRun, RunAction, RunStep, StepEnd};

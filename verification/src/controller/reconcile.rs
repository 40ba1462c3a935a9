//! Reconcile calls: what follows from their ends.

use crate::controller::context::Context;
use crate::time;
use kube_runtime::controller::Action;
use std::sync::Arc;
use std::time::Duration;
use vstd::prelude::*;

verus! {

/// What a controller does with a resource after a reconcile, which is carried
/// through.
#[verifier::external_type_specification]
#[verifier::external_body]
pub struct ExAction(Action);

/// What `Action::requeue` returns for a duration.
pub uninterp spec fn requeue_action(after: Duration) -> Action;

/// `Action::requeue` of kube-runtime depends on nothing but the duration. An
/// action does not show when it requeues, so that is left unsaid.
pub assume_specification[ Action::requeue ](duration: Duration) -> (r: Action)
    ensures
        r == requeue_action(duration),
;

/// Trait that operator authors implement to define how a failed reconcile of a
/// resource `CR` is handled, given shared context data `T`.
pub trait Reconciler<CR, T = ()>: Send + Sync + 'static where T: Send + Sync + 'static {
    /// The error type of a reconcile.
    type Error;

    /// Decides how to handle a failed reconcile.
    ///
    /// Defaults to requeue after 30 seconds. Override to implement custom
    /// backoff strategies or to add per-error logging.
    fn error_policy(&self, _cr: Arc<CR>, _err: &Self::Error, _ctx: Arc<Context<T>>) -> (action:
        Action)
        default_ensures
            action == requeue_action(time::duration_from_secs(30)),
    {
        Action::requeue(Duration::from_secs(30))
    }
}

/// How a reconcile call ended.
#[derive(Debug)]
pub enum ReconcileEnd<E> {
    /// The reconciler returned this.
    Returned(Result<Action, E>),
    /// It ran longer than the timeout and was cancelled.
    TimedOut,
}

/// What the metrics count a reconcile as.
#[derive(Debug, Clone, Copy, PartialEq, Eq, Structural)]
pub enum Measurement {
    Success,
    Failure,
}

/// What follows from a reconcile call.
#[derive(Debug)]
pub struct ReconcileOutcome<E> {
    /// What the controller runtime is told.
    pub result: Result<Action, E>,
    /// What is recorded, where metrics are kept.
    pub measurement: Option<Measurement>,
}

/// Concludes a reconcile call that was made under `timeout`, of a controller that
/// keeps metrics or not. One that timed out is requeued after the same duration,
/// and counts as a success.
pub fn conclude_reconcile<E>(
    timeout: Option<Duration>,
    keeps_metrics: bool,
    end: ReconcileEnd<E>,
) -> (outcome: ReconcileOutcome<E>)
    requires
        end is TimedOut ==> timeout is Some,
    ensures
        outcome.result == (match end {
            ReconcileEnd::Returned(result) => result,
            ReconcileEnd::TimedOut => Ok(requeue_action(timeout->0)),
        }),
        outcome.measurement == (if !keeps_metrics {
            None
        } else if outcome.result is Ok {
            Some(Measurement::Success)
        } else {
            Some(Measurement::Failure)
        }),
{
    let result = match end {
        ReconcileEnd::Returned(result) => result,
        ReconcileEnd::TimedOut => Ok(Action::requeue(timeout.unwrap())),
    };
    let measurement = if keeps_metrics {
        match &result {
            Ok(_) => Some(Measurement::Success),
            Err(_) => Some(Measurement::Failure),
        }
    } else {
        None
    };
    ReconcileOutcome { result, measurement }
}

/// What the reconciler returned is passed on as it is; a reconcile that timed out is
/// requeued after the very timeout. Metrics, where they are kept, count an error as a
/// failure and everything else as a success.
pub proof fn law_reconciles_are_passed_on_or_requeued<E>(
    timeout: Option<Duration>,
    keeps_metrics: bool,
    end: ReconcileEnd<E>,
    outcome: ReconcileOutcome<E>,
)
    requires
        call_ensures(conclude_reconcile::<E>, (timeout, keeps_metrics, end), outcome),
    ensures
        end matches ReconcileEnd::Returned(result) ==> outcome.result == result,
        end is TimedOut ==> (timeout matches Some(after) ==> outcome.result == Result::<
            Action,
            E,
        >::Ok(requeue_action(after))),
        keeps_metrics <==> outcome.measurement is Some,
        keeps_metrics ==> match end {
            ReconcileEnd::Returned(Ok(_)) => outcome.measurement == Some(Measurement::Success),
            ReconcileEnd::Returned(Err(_)) => outcome.measurement == Some(Measurement::Failure),
            ReconcileEnd::TimedOut => outcome.measurement == Some(Measurement::Success),
        },
{
}

} // verus!

//! Leader election on a Lease: becoming the leader and staying it.

use crate::controller::election::LeaderElectionConfig;
use crate::controller::run::StepEnd;
use std::time::Duration;
use vstd::prelude::*;

verus! {

/// How an attempt to acquire or renew the Lease ended.
pub enum Attempt {
    /// The identity holds the Lease.
    Held,
    /// Another identity holds it.
    Taken,
    /// A request failed.
    Failed,
}

/// How the attempt with this result ended.
pub open spec fn attempt<E>(result: Result<bool, E>) -> Attempt {
    match result {
        Ok(true) => Attempt::Held,
        Ok(false) => Attempt::Taken,
        Err(_) => Attempt::Failed,
    }
}

/// What happened last to a replica that waits for leadership.
#[derive(Debug)]
pub enum AcquireEvent<E> {
    /// The wait begins.
    Begun,
    /// The attempt to acquire the Lease ended with this result.
    Attempted(Result<bool, E>),
    /// The time until the next attempt has passed, or was cut short by a request
    /// to stop.
    Waited,
}

/// What a replica that waits for leadership does next.
#[derive(Debug, PartialEq, Eq)]
pub enum AcquireAction {
    /// Attempt to acquire the Lease.
    Attempt,
    /// Wait for this long, or until a stop is requested.
    WaitFor(Duration),
    /// Start: the replica is the leader.
    Lead,
    /// Give up: a stop was requested.
    Stop,
}

/// What a replica that waits for leadership does after `event`, where a stop has
/// been requested or not.
pub open spec fn acquire_action<E>(
    config: LeaderElectionConfig,
    event: AcquireEvent<E>,
    stop_requested: bool,
) -> AcquireAction {
    if stop_requested {
        AcquireAction::Stop
    } else {
        match event {
            AcquireEvent::Attempted(result) => if attempt(result) == Attempt::Held {
                AcquireAction::Lead
            } else {
                AcquireAction::WaitFor(config.retry_period)
            },
            _ => AcquireAction::Attempt,
        }
    }
}

/// Decides on what happened last in the wait for leadership. It ends with success
/// or with a request to stop: a failed request is retried like a lease that
/// another identity holds.
pub fn acquire_leader_lease<E>(
    config: &LeaderElectionConfig,
    event: &AcquireEvent<E>,
    stop_requested: bool,
) -> (action: AcquireAction)
    ensures
        action == acquire_action(*config, *event, stop_requested),
{
    if stop_requested {
        return AcquireAction::Stop;
    }
    match event {
        AcquireEvent::Begun => AcquireAction::Attempt,
        AcquireEvent::Attempted(Ok(true)) => AcquireAction::Lead,
        AcquireEvent::Attempted(Ok(false)) => AcquireAction::WaitFor(config.retry_period),
        AcquireEvent::Attempted(Err(_)) => AcquireAction::WaitFor(config.retry_period),
        AcquireEvent::Waited => AcquireAction::Attempt,
    }
}

/// How the step of a run ends that waits for leadership, where this action of it
/// is the last.
pub open spec fn wait_end<E>(action: AcquireAction) -> Option<StepEnd<E>> {
    match action {
        AcquireAction::Lead => Some(StepEnd::Done),
        AcquireAction::Stop => Some(StepEnd::Stopped),
        _ => None,
    }
}

impl AcquireAction {
    /// How the step of a run ends that waits for leadership, or `None` where the
    /// wait goes on.
    pub fn step_end<E>(&self) -> (r: Option<StepEnd<E>>)
        ensures
            r == wait_end::<E>(*self),
    {
        match self {
            AcquireAction::Lead => Some(StepEnd::Done),
            AcquireAction::Stop => Some(StepEnd::Stopped),
            AcquireAction::Attempt => None,
            AcquireAction::WaitFor(_) => None,
        }
    }
}

/// A replica becomes the leader exactly when its attempt has succeeded and no stop
/// is requested. Once one is, no attempt follows, and the replica does not lead.
pub proof fn law_stop_ends_the_wait<E>(
    config: LeaderElectionConfig,
    event: AcquireEvent<E>,
    stop_requested: bool,
)
    ensures
        acquire_action(config, event, stop_requested) == AcquireAction::Lead <==> !stop_requested
            && (event matches AcquireEvent::Attempted(result) && attempt(result) == Attempt::Held),
        acquire_action(config, event, stop_requested) == AcquireAction::Stop <==> stop_requested,
        wait_end::<E>(acquire_action(config, event, stop_requested)) == Some(
            StepEnd::<E>::Stopped,
        ) <==> stop_requested,
{
}

/// Why a leader stops.
#[derive(Debug, Clone, Copy, PartialEq, Eq, Structural)]
pub enum StopReason {
    /// Another replica holds the Lease.
    LeaseTaken,
    /// Too many attempts in a row failed.
    RenewalFailed,
}

/// After how many failed attempts in a row a leader stops.
pub const MAX_CONSECUTIVE_ERRORS: u32 = 3;

/// What a leader does after an attempt to renew.
#[derive(Debug)]
pub enum RenewAction {
    /// Attempt to renew after this long.
    RenewAfter(Duration, LeaseRenewal),
    /// Stop the controller.
    Stop(StopReason),
}

/// What becomes of a leader after an attempt, given how many attempts had failed
/// in a row before it: the new count, or the reason to stop.
pub open spec fn renewal_step(errors: nat, attempt: Attempt) -> Result<nat, StopReason> {
    match attempt {
        Attempt::Held => Ok(0),
        Attempt::Taken => Err(StopReason::LeaseTaken),
        Attempt::Failed => if errors + 1 >= MAX_CONSECUTIVE_ERRORS {
            Err(StopReason::RenewalFailed)
        } else {
            Ok(errors + 1)
        },
    }
}

/// What has become of a leader after these attempts.
pub open spec fn renewal_run(attempts: Seq<Attempt>) -> Result<nat, StopReason>
    decreases attempts.len(),
{
    if attempts.len() == 0 {
        Ok(0)
    } else {
        match renewal_run(attempts.drop_last()) {
            Ok(errors) => renewal_step(errors, attempts.last()),
            Err(reason) => Err(reason),
        }
    }
}

/// A leader that renews its Lease.
#[derive(Debug)]
pub struct LeaseRenewal {
    consecutive_errors: u32,
}

impl View for LeaseRenewal {
    type V = nat;

    /// How many attempts have failed since the last success.
    closed spec fn view(&self) -> nat {
        self.consecutive_errors as nat
    }
}

impl LeaseRenewal {
    #[verifier::type_invariant]
    spec fn below_limit(self) -> bool {
        self.consecutive_errors < MAX_CONSECUTIVE_ERRORS
    }

    /// What a replica does that has just become the leader: it first attempts to
    /// renew a whole period later.
    pub fn begin(config: &LeaderElectionConfig) -> (action: RenewAction)
        ensures
            action matches RenewAction::RenewAfter(period, renewal) && period
                == config.renew_period && renewal@ == 0,
    {
        RenewAction::RenewAfter(config.renew_period, LeaseRenewal { consecutive_errors: 0 })
    }

    /// Decides on the `result` of an attempt to renew.
    pub fn attempted<E>(self, config: &LeaderElectionConfig, result: &Result<bool, E>) -> (action:
        RenewAction)
        ensures
            match renewal_step(self@, attempt(*result)) {
                Ok(errors) => action matches RenewAction::RenewAfter(period, renewal)
                    && period == config.renew_period && renewal@ == errors,
                Err(reason) => action == RenewAction::Stop(reason),
            },
    {
        proof {
            use_type_invariant(&self);
        }
        match result {
            Ok(true) => RenewAction::RenewAfter(
                config.renew_period,
                LeaseRenewal { consecutive_errors: 0 },
            ),
            Ok(false) => RenewAction::Stop(StopReason::LeaseTaken),
            Err(_) => {
                let consecutive_errors: u32 = self.consecutive_errors + 1;
                if consecutive_errors >= MAX_CONSECUTIVE_ERRORS {
                    RenewAction::Stop(StopReason::RenewalFailed)
                } else {
                    RenewAction::RenewAfter(
                        config.renew_period,
                        LeaseRenewal { consecutive_errors },
                    )
                }
            },
        }
    }
}

/// Whether the attempt at `i` is the third in a row that failed.
pub open spec fn third_failure(attempts: Seq<Attempt>, i: int) -> bool {
    &&& 2 <= i < attempts.len()
    &&& attempts[i - 2] == Attempt::Failed
    &&& attempts[i - 1] == Attempt::Failed
    &&& attempts[i] == Attempt::Failed
}

/// Whether nothing in `attempts` makes a leader stop: none found the Lease
/// taken, and no three in a row failed.
pub open spec fn keeps_leading(attempts: Seq<Attempt>) -> bool {
    &&& forall|i: int| 0 <= i < attempts.len() ==> #[trigger] attempts[i] != Attempt::Taken
    &&& forall|i: int| !#[trigger] third_failure(attempts, i)
}

/// How many attempts at the end of `attempts` failed in a row.
pub open spec fn trailing_failures(attempts: Seq<Attempt>) -> nat
    decreases attempts.len(),
{
    if attempts.len() > 0 && attempts.last() == Attempt::Failed {
        trailing_failures(attempts.drop_last()) + 1
    } else {
        0
    }
}

/// A leader stops exactly when the Lease is definitively lost: when an attempt
/// finds it taken, or when three in a row fail. Until then its count is that of
/// the failures since the last success.
pub proof fn law_leader_stops_only_on_loss(attempts: Seq<Attempt>)
    ensures
        renewal_run(attempts) is Ok <==> keeps_leading(attempts),
        renewal_run(attempts) matches Ok(errors) ==> errors == trailing_failures(attempts),
    decreases attempts.len(),
{
    if attempts.len() > 0 {
        let before = attempts.drop_last();
        let n = before.len() as int;
        law_leader_stops_only_on_loss(before);
        lemma_trailing(before);
        assert forall|i: int| i < n implies third_failure(before, i) == #[trigger] third_failure(
            attempts,
            i,
        ) by {}
        if keeps_leading(attempts) {
            assert forall|i: int| !#[trigger] third_failure(before, i) by {
                assert(!third_failure(attempts, i));
            }
            assert forall|i: int| 0 <= i < n implies #[trigger] before[i] != Attempt::Taken by {
                assert(attempts[i] != Attempt::Taken);
            }
            assert(!third_failure(attempts, n));
            assert(attempts[n] != Attempt::Taken);
        } else if keeps_leading(before) {
            assert(third_failure(attempts, n) || attempts[n] == Attempt::Taken) by {
                if !third_failure(attempts, n) && attempts[n] != Attempt::Taken {
                    assert forall|i: int| !#[trigger] third_failure(attempts, i) by {
                        assert(!third_failure(before, i));
                    }
                    assert forall|i: int| 0 <= i < attempts.len() implies #[trigger] attempts[i]
                        != Attempt::Taken by {
                        assert(i < n ==> before[i] != Attempt::Taken);
                    }
                }
            }
        }
    }
}

/// The trailing failures are failures, and no more than there are attempts.
proof fn lemma_trailing(attempts: Seq<Attempt>)
    ensures
        trailing_failures(attempts) <= attempts.len(),
        trailing_failures(attempts) >= 1 <==> attempts.len() >= 1 && attempts[attempts.len() - 1]
            == Attempt::Failed,
        trailing_failures(attempts) >= 2 <==> attempts.len() >= 2 && attempts[attempts.len() - 1]
            == Attempt::Failed && attempts[attempts.len() - 2] == Attempt::Failed,
    decreases attempts.len(),
{
    if attempts.len() > 0 {
        lemma_trailing(attempts.drop_last());
    }
}

/// A replica attempts at once and after every wait; between two attempts it waits for
/// exactly the retry period, whether the Lease was taken or a request failed, and
/// whatever the renew period is; and it leads once an attempt has succeeded. A request
/// to stop goes before all of this.
pub proof fn law_attempts_are_a_retry_period_apart<E>(
    config: &LeaderElectionConfig,
    event: &AcquireEvent<E>,
    stop_requested: bool,
    action: AcquireAction,
)
    requires
        call_ensures(acquire_leader_lease::<E>, (config, event, stop_requested), action),
    ensures
        stop_requested <==> action is Stop,
        !stop_requested ==> match *event {
            AcquireEvent::Begun => action is Attempt,
            AcquireEvent::Waited => action is Attempt,
            AcquireEvent::Attempted(Ok(true)) => action is Lead,
            AcquireEvent::Attempted(Ok(false)) => action matches AcquireAction::WaitFor(period)
                && period == config.retry_period,
            AcquireEvent::Attempted(Err(_)) => action matches AcquireAction::WaitFor(period)
                && period == config.retry_period,
        },
{
}

/// The wait for leadership is over exactly where the replica leads, and then its step is
/// done, or where it stops, and then its step is given up.
pub proof fn law_wait_is_over_when_leading_or_stopping<E>(
    action: &AcquireAction,
    end: Option<StepEnd<E>>,
)
    requires
        call_ensures(AcquireAction::step_end::<E>, (action,), end),
    ensures
        action is Attempt || action is WaitFor <==> end is None,
        action is Lead <==> (end matches Some(end) && end is Done),
        action is Stop <==> (end matches Some(end) && end is Stopped),
{
}

/// A leader attempts to renew one renew period after it became the leader, and one
/// after every attempt that does not make it stop. Success clears the count of failed
/// attempts, failure raises it, the third failure in a row stops the leader, and so
/// does a Lease that is taken.
pub proof fn law_renewals_are_a_renew_period_apart<E>(
    config: &LeaderElectionConfig,
    first: RenewAction,
    renewal: LeaseRenewal,
    result: &Result<bool, E>,
    action: RenewAction,
)
    requires
        call_ensures(LeaseRenewal::begin, (config,), first),
        call_ensures(LeaseRenewal::attempted::<E>, (renewal, config, result), action),
    ensures
        first matches RenewAction::RenewAfter(period, renewal) && period == config.renew_period
            && renewal@ == 0,
        match *result {
            Ok(true) => action matches RenewAction::RenewAfter(period, next) && period
                == config.renew_period && next@ == 0,
            Ok(false) => action == RenewAction::Stop(StopReason::LeaseTaken),
            Err(_) => if renewal@ >= 2 {
                action == RenewAction::Stop(StopReason::RenewalFailed)
            } else {
                action matches RenewAction::RenewAfter(period, next) && period
                    == config.renew_period && next@ == renewal@ + 1
            },
        },
{
}

} // verus!

//! Leader election on a Lease: one attempt to acquire or renew it.

use crate::controller::lease;
use crate::controller::lease::{build_lease, Lease, LeaseSpec, LeaseView};
use crate::time;
use crate::time::MicroTime;
use std::time::Duration;
use vstd::prelude::*;

verus! {

/// Who competes for which Lease, and how fast.
#[derive(Debug)]
pub struct LeaderElectionConfig {
    pub namespace: String,
    pub name: String,
    pub identity: String,
    /// How long the lease stands without being renewed.
    pub lease_duration_secs: i32,
    /// How often the leader renews the lease.
    pub renew_period: Duration,
    /// How often a non-leader retries acquisition.
    pub retry_period: Duration,
}

/// A request that failed: the status code that the API server answered with,
/// where it answered at all, and the error itself.
#[derive(Debug)]
pub struct ApiFailure<E> {
    pub code: Option<u16>,
    pub error: E,
}

/// What happened last in an attempt.
#[derive(Debug)]
pub enum LeaseEvent<E> {
    /// The attempt begins.
    Started,
    /// The reply to [`LeaseAction::Get`].
    Fetched(Result<Lease, ApiFailure<E>>),
    /// The reply to [`LeaseAction::Create`] or [`LeaseAction::Replace`].
    Written(Result<(), ApiFailure<E>>),
}

/// What an attempt does next.
#[derive(Debug)]
pub enum LeaseAction<E> {
    /// Read the Lease.
    Get { namespace: String, name: String },
    /// Create the Lease.
    Create { namespace: String, lease: Lease },
    /// Replace the Lease.
    Replace { namespace: String, name: String, lease: Lease },
    /// The attempt is over. `Ok(true)`: the identity now holds the Lease.
    /// `Ok(false)`: another one does.
    Finish(Result<bool, E>),
}

/// The view of a [`LeaseEvent`].
pub enum LeaseEventView<E> {
    Started,
    Fetched(Result<LeaseView, ApiFailure<E>>),
    Written(Result<(), ApiFailure<E>>),
}

/// The view of a [`LeaseAction`].
#[verifier::ext_equal]
pub enum LeaseActionView<E> {
    Get { namespace: Seq<char>, name: Seq<char> },
    Create { namespace: Seq<char>, lease: LeaseView },
    Replace {
        namespace: Seq<char>,
        name: Seq<char>,
        lease: LeaseView,
    },
    Finish(Result<bool, E>),
}

impl<E> View for LeaseEvent<E> {
    type V = LeaseEventView<E>;

    open spec fn view(&self) -> LeaseEventView<E> {
        match *self {
            LeaseEvent::Started => LeaseEventView::Started,
            LeaseEvent::Fetched(Ok(lease)) => LeaseEventView::Fetched(Ok(lease@)),
            LeaseEvent::Fetched(Err(failure)) => LeaseEventView::Fetched(Err(failure)),
            LeaseEvent::Written(reply) => LeaseEventView::Written(reply),
        }
    }
}

impl<E> View for LeaseAction<E> {
    type V = LeaseActionView<E>;

    open spec fn view(&self) -> LeaseActionView<E> {
        match *self {
            LeaseAction::Get { namespace, name } => LeaseActionView::Get {
                namespace: namespace@,
                name: name@,
            },
            LeaseAction::Create { namespace, lease } => LeaseActionView::Create {
                namespace: namespace@,
                lease: lease@,
            },
            LeaseAction::Replace { namespace, name, lease } => LeaseActionView::Replace {
                namespace: namespace@,
                name: name@,
                lease: lease@,
            },
            LeaseAction::Finish(result) => LeaseActionView::Finish(result),
        }
    }
}

/// Whether the identity of `config` holds `lease`.
pub open spec fn holds(
    config: LeaderElectionConfig,
    lease: LeaseView,
) -> bool {
    lease.holder == Some(config.identity@)
}

/// How many seconds `lease` stands without renewal: what the lease says, or
/// else what `config` says.
pub open spec fn standing_seconds(
    config: LeaderElectionConfig,
    lease: LeaseView,
) -> i32 {
    match lease.duration {
        Some(seconds) => seconds,
        None => config.lease_duration_secs,
    }
}

/// Whether `lease` has run out by `now`. One that was never renewed has.
pub open spec fn expired(
    config: LeaderElectionConfig,
    lease: LeaseView,
    now: int,
) -> bool {
    match lease.renewed {
        Some(renewed) => now > time::seconds_after(
            renewed,
            standing_seconds(config, lease) as int,
        ),
        None => true,
    }
}

/// Whether another identity holds `lease` and it stands.
pub open spec fn held_by_another(
    config: LeaderElectionConfig,
    lease: LeaseView,
    now: int,
) -> bool {
    !holds(config, lease) && !expired(config, lease, now)
}

/// Whether the attempt can be decided: the instant at which `lease` runs out is
/// representable, and so is the count of transitions after a takeover.
pub open spec fn decidable(
    config: LeaderElectionConfig,
    lease: LeaseView,
    now: int,
) -> bool {
    &&& lease.renewed matches Some(renewed) ==> time::representable(
        time::seconds_after(renewed, standing_seconds(config, lease) as int),
    )
    &&& !holds(config, lease) && expired(config, lease, now) ==> lease.transitions != Some(i32::MAX)
}

/// The Lease that is created where there is none.
pub open spec fn fresh_lease(config: LeaderElectionConfig, now: int) -> LeaseView {
    LeaseView {
        name: Some(config.name@),
        namespace: Some(config.namespace@),
        resource_version: None,
        holder: Some(config.identity@),
        duration: Some(config.lease_duration_secs),
        acquired: Some(now),
        renewed: Some(now),
        transitions: Some(0),
    }
}

/// The Lease that takes the place of `lease`. A renewal keeps the time of
/// acquisition and the count of transitions; a takeover starts the one anew and
/// raises the other.
pub open spec fn claimed_lease(
    config: LeaderElectionConfig,
    lease: LeaseView,
    now: int,
) -> LeaseView {
    LeaseView {
        name: Some(config.name@),
        namespace: Some(config.namespace@),
        resource_version: lease.resource_version,
        holder: Some(config.identity@),
        duration: Some(config.lease_duration_secs),
        acquired: if holds(config, lease) && lease.acquired is Some {
            lease.acquired
        } else {
            Some(now)
        },
        renewed: Some(now),
        transitions: match lease.transitions {
            Some(n) => Some(
                if holds(config, lease) {
                    n
                } else {
                    (n + 1) as i32
                },
            ),
            None => None,
        },
    }
}

/// What an attempt at `now` does after `event`.
pub open spec fn lease_action<E>(
    config: LeaderElectionConfig,
    now: int,
    event: LeaseEventView<E>,
) -> LeaseActionView<E> {
    match event {
        LeaseEventView::Started => LeaseActionView::Get {
            namespace: config.namespace@,
            name: config.name@,
        },
        LeaseEventView::Fetched(Err(failure)) => if failure.code == Some(404u16) {
            LeaseActionView::Create {
                namespace: config.namespace@,
                lease: fresh_lease(config, now),
            }
        } else {
            LeaseActionView::Finish(Err(failure.error))
        },
        LeaseEventView::Fetched(Ok(lease)) => if held_by_another(config, lease, now) {
            LeaseActionView::Finish(Ok(false))
        } else {
            LeaseActionView::Replace {
                namespace: config.namespace@,
                name: config.name@,
                lease: claimed_lease(config, lease, now),
            }
        },
        LeaseEventView::Written(Ok(_)) => LeaseActionView::Finish(Ok(true)),
        LeaseEventView::Written(Err(failure)) => if failure.code == Some(409u16) {
            LeaseActionView::Finish(Ok(false))
        } else {
            LeaseActionView::Finish(Err(failure.error))
        },
    }
}

impl LeaderElectionConfig {
    /// Whether this identity holds `lease`.
    fn is_holder(&self, lease: &Lease) -> (r: bool)
        ensures
            r == holds(*self, lease@),
    {
        match &lease.spec {
            Some(spec) => match &spec.holder_identity {
                Some(holder) => *holder == self.identity,
                None => false,
            },
            None => false,
        }
    }

    /// When `lease` was last renewed.
    fn renewed_at(lease: &Lease) -> (r: Option<MicroTime>)
        ensures
            lease::instant(r) == lease@.renewed,
    {
        match &lease.spec {
            Some(spec) => spec.renew_time,
            None => None,
        }
    }

    /// How many seconds `lease` stands without renewal.
    fn lasting(&self, lease: &Lease) -> (r: i32)
        ensures
            r == standing_seconds(*self, lease@),
    {
        match &lease.spec {
            Some(spec) => match spec.lease_duration_seconds {
                Some(seconds) => seconds,
                None => self.lease_duration_secs,
            },
            None => self.lease_duration_secs,
        }
    }

    /// Whether `lease` has run out by `now`.
    fn is_expired(&self, lease: &Lease, now: MicroTime) -> (r: bool)
        requires
            lease@.renewed matches Some(renewed) ==> time::representable(
                time::seconds_after(renewed, standing_seconds(*self, lease@) as int),
            ),
        ensures
            r == expired(*self, lease@, now@),
    {
        match Self::renewed_at(lease) {
            Some(renewed) => {
                let end = renewed.plus_seconds(self.lasting(lease) as i64);
                now.as_nanosecond() > end.as_nanosecond()
            },
            None => true,
        }
    }

    /// Whether [`try_acquire_or_renew`] can decide on `lease` at `now`.
    pub fn can_decide(&self, lease: &Lease, now: MicroTime) -> (r: bool)
        ensures
            r == decidable(*self, lease@, now@),
    {
        match Self::renewed_at(lease) {
            Some(renewed) => if !renewed.can_add_seconds(self.lasting(lease) as i64) {
                return false;
            },
            None => {},
        }
        let transitions = match &lease.spec {
            Some(spec) => spec.lease_transitions,
            None => None,
        };
        match transitions {
            Some(n) => n != i32::MAX || self.is_holder(lease) || !self.is_expired(lease, now),
            None => true,
        }
    }

    /// The Lease that takes the place of `lease` at `now`.
    fn claim(&self, lease: &Lease, now: MicroTime) -> (r: Lease)
        requires
            decidable(*self, lease@, now@),
            !held_by_another(*self, lease@, now@),
        ensures
            r@ == claimed_lease(*self, lease@, now@),
    {
        let transitioning = !self.is_holder(lease);
        let (acquired, transitions) = match &lease.spec {
            Some(spec) => (spec.acquire_time, spec.lease_transitions),
            None => (None, None),
        };
        let acquire_time = match acquired {
            Some(time) => if transitioning {
                now
            } else {
                time
            },
            None => now,
        };
        let lease_transitions = match transitions {
            Some(n) => Some(
                if transitioning {
                    n + 1
                } else {
                    n
                },
            ),
            None => None,
        };
        build_lease(
            self.name.as_str(),
            self.namespace.as_str(),
            self.identity.as_str(),
            self.lease_duration_secs,
            acquire_time,
            now,
            lease.metadata.resource_version.clone(),
            lease_transitions,
        )
    }
}

/// One step of an attempt, begun at `now`, to acquire or renew the Lease.
///
/// The attempt reads the Lease. Where there is none it creates one; where this
/// identity holds it, or it has run out, it replaces it, with the resource
/// version that was read, so that a concurrent writer is detected; where
/// another identity holds it, it gives up.
pub fn try_acquire_or_renew<E>(
    config: &LeaderElectionConfig,
    now: MicroTime,
    event: LeaseEvent<E>,
) -> (action: LeaseAction<E>)
    requires
        event matches LeaseEvent::Fetched(Ok(lease)) ==> decidable(*config, lease@, now@),
    ensures
        action@ == lease_action(*config, now@, event@),
{
    match event {
        LeaseEvent::Started => LeaseAction::Get {
            namespace: config.namespace.clone(),
            name: config.name.clone(),
        },
        LeaseEvent::Fetched(Err(failure)) => match failure.code {
            Some(404) => LeaseAction::Create {
                namespace: config.namespace.clone(),
                lease: build_lease(
                    config.name.as_str(),
                    config.namespace.as_str(),
                    config.identity.as_str(),
                    config.lease_duration_secs,
                    now,
                    now,
                    None,
                    Some(0),
                ),
            },
            _ => LeaseAction::Finish(Err(failure.error)),
        },
        LeaseEvent::Fetched(Ok(lease)) => {
            if !config.is_holder(&lease) && !config.is_expired(&lease, now) {
                return LeaseAction::Finish(Ok(false));
            }
            LeaseAction::Replace {
                namespace: config.namespace.clone(),
                name: config.name.clone(),
                lease: config.claim(&lease, now),
            }
        },
        LeaseEvent::Written(Ok(_)) => LeaseAction::Finish(Ok(true)),
        LeaseEvent::Written(Err(failure)) => match failure.code {
            Some(409) => LeaseAction::Finish(Ok(false)),
            _ => LeaseAction::Finish(Err(failure.error)),
        },
    }
}

/// What the API server keeps of an instant: whole microseconds.
pub open spec fn stored_instant(written: Option<int>) -> Option<int> {
    match written {
        Some(nanosecond) => Some(time::whole_microsecond(nanosecond)),
        None => None,
    }
}

/// What the API server keeps of a Lease that was written: all but the version,
/// which it assigns, and the fractions of microseconds, which are not sent.
pub open spec fn stored(written: LeaseView, version: Option<Seq<char>>) -> LeaseView {
    LeaseView {
        resource_version: version,
        acquired: stored_instant(written.acquired),
        renewed: stored_instant(written.renewed),
        ..written
    }
}

/// The last instant at which a Lease stands that was written at `written_at`,
/// for `secs` seconds, and stored.
pub open spec fn stands_until(written_at: int, secs: i32) -> int {
    time::seconds_after(time::whole_microsecond(written_at), secs as int)
}

/// Whether `written` is a Lease that the identity of `config` writes at `now`.
pub open spec fn is_write<E>(
    config: LeaderElectionConfig,
    now: int,
    event: LeaseEventView<E>,
    written: LeaseView,
) -> bool {
    match lease_action(config, now, event) {
        LeaseActionView::Create { lease, .. } => lease == written,
        LeaseActionView::Replace { lease, .. } => lease == written,
        _ => false,
    }
}

/// Every Lease that an attempt writes names its identity as the holder, its
/// own duration and the instant of the attempt.
pub proof fn law_writes_claim_the_lease<E>(
    config: LeaderElectionConfig,
    now: int,
    event: LeaseEventView<E>,
    written: LeaseView,
)
    requires
        is_write(config, now, event, written),
    ensures
        written.name == Some(config.name@),
        written.namespace == Some(config.namespace@),
        holds(config, written),
        written.duration == Some(config.lease_duration_secs),
        written.renewed == Some(now),
        written.acquired is Some,
{
}

/// While a Lease that one identity has written stands, no other identity writes
/// it: its attempt ends with `Ok(false)`. The Lease stands from the microsecond in
/// which it was written.
pub proof fn law_standing_lease_excludes_others<E>(
    leader: LeaderElectionConfig,
    other: LeaderElectionConfig,
    written_at: int,
    event: LeaseEventView<E>,
    written: LeaseView,
    version: Option<Seq<char>>,
    now: int,
)
    requires
        leader.identity@ != other.identity@,
        is_write(leader, written_at, event, written),
        now <= stands_until(written_at, leader.lease_duration_secs),
    ensures
        lease_action::<E>(other, now, LeaseEventView::Fetched(Ok(stored(written, version))))
            == LeaseActionView::<E>::Finish(Ok(false)),
{
}

/// Once a Lease that one identity has written has run out, another identity
/// takes it over: it becomes the holder from that instant on, the count of
/// transitions goes up by one, and the write carries the version that was read.
pub proof fn law_expired_lease_is_taken_over<E>(
    leader: LeaderElectionConfig,
    other: LeaderElectionConfig,
    written_at: int,
    event: LeaseEventView<E>,
    written: LeaseView,
    version: Option<Seq<char>>,
    now: int,
)
    requires
        leader.identity@ != other.identity@,
        is_write(leader, written_at, event, written),
        now > stands_until(written_at, leader.lease_duration_secs),
        decidable(other, stored(written, version), now),
    ensures
        lease_action::<E>(other, now, LeaseEventView::Fetched(Ok(stored(written, version))))
            matches LeaseActionView::Replace { name, namespace, lease } && name == other.name@
            && namespace == other.namespace@ && holds(other, lease) && lease.acquired == Some(now)
            && lease.renewed == Some(now) && lease.resource_version == version && (
        match written.transitions {
            Some(n) => lease.transitions matches Some(m) && m == n + 1,
            None => lease.transitions is None,
        }),
{
}

/// An identity that reads the Lease that it has written renews it, whether or not
/// it has run out: only the instant of renewal changes. What is stored as the time
/// of acquisition stays the same through that write as well.
pub proof fn law_renewal_keeps_the_rest<E>(
    config: LeaderElectionConfig,
    written_at: int,
    event: LeaseEventView<E>,
    written: LeaseView,
    version: Option<Seq<char>>,
    next_version: Option<Seq<char>>,
    now: int,
)
    requires
        is_write(config, written_at, event, written),
    ensures
        lease_action::<E>(config, now, LeaseEventView::Fetched(Ok(stored(written, version))))
            == (LeaseActionView::<E>::Replace {
            namespace: config.namespace@,
            name: config.name@,
            lease: LeaseView { renewed: Some(now), ..stored(written, version) },
        }),
        stored(
            LeaseView { renewed: Some(now), ..stored(written, version) },
            next_version,
        ).acquired == stored(written, version).acquired,
{
}

/// A Lease changes hands only once it has run out.
pub proof fn law_takeover_only_after_expiry<E>(
    config: LeaderElectionConfig,
    now: int,
    lease: LeaseView,
    written: LeaseView,
)
    requires
        is_write::<E>(config, now, LeaseEventView::Fetched(Ok(lease)), written),
        lease.holder != written.holder,
    ensures
        expired(config, lease, now),
{
}

/// A write over an existing Lease carries the version that was read; one that
/// creates a Lease carries none.
pub proof fn law_writes_are_guarded<E>(
    config: LeaderElectionConfig,
    now: int,
    event: LeaseEventView<E>,
    written: LeaseView,
)
    requires
        is_write(config, now, event, written),
    ensures
        written.resource_version == (match event {
            LeaseEventView::Fetched(Ok(lease)) => lease.resource_version,
            _ => None,
        }),
{
}

/// An attempt ends with `Ok(true)` exactly when its write succeeded.
pub proof fn law_leads_only_after_a_write<E>(
    config: LeaderElectionConfig,
    now: int,
    event: LeaseEventView<E>,
)
    ensures
        lease_action(config, now, event) == LeaseActionView::<E>::Finish(Ok(true)) <==> (event
            matches LeaseEventView::Written(reply) && reply is Ok),
{
}

/// An attempt reads once, then writes at most once, and then ends.
pub proof fn law_one_read_then_at_most_one_write<E>(
    config: LeaderElectionConfig,
    now: int,
    event: LeaseEventView<E>,
)
    ensures
        lease_action(config, now, event) is Get <==> event is Started,
        (lease_action(config, now, event) is Create || lease_action(config, now, event) is Replace)
            ==> event is Fetched,
        event is Written ==> lease_action(config, now, event) is Finish,
{
}

/// An attempt ends in error exactly when a request failed, other than by a read
/// that finds no Lease or by a write that conflicts; the error is that of the
/// request.
pub proof fn law_errors_are_those_of_requests<E>(
    config: LeaderElectionConfig,
    now: int,
    event: LeaseEventView<E>,
    error: E,
)
    ensures
        lease_action(config, now, event) == LeaseActionView::<E>::Finish(Err(error)) <==> {
            ||| event matches LeaseEventView::Fetched(Err(failure)) && failure.code != Some(404u16)
                && failure.error == error
            ||| event matches LeaseEventView::Written(Err(failure)) && failure.code != Some(409u16)
                && failure.error == error
        },
{
}

/// A write of the Lease that the API server accepted.
pub struct AcceptedWrite {
    pub config: LeaderElectionConfig,
    pub at: int,
    pub lease: LeaseView,
    /// The version that the server assigned.
    pub version: Option<Seq<char>>,
}

/// Whether the write at `i` was decided on what the one before it had stored.
pub open spec fn builds_on_previous<E>(writes: Seq<AcceptedWrite>, i: int) -> bool {
    let earlier = writes[i - 1];
    let later = writes[i];
    is_write::<E>(
        later.config,
        later.at,
        LeaseEventView::Fetched(Ok(stored(earlier.lease, earlier.version))),
        later.lease,
    )
}

/// Whether `writes` is a history of one Lease: each write was decided on what
/// the one before it had stored. The server sees to that, by the version that
/// each write carries.
pub open spec fn is_history<E>(writes: Seq<AcceptedWrite>) -> bool {
    forall|i: int| 0 < i < writes.len() ==> #[trigger] builds_on_previous::<E>(writes, i)
}

/// Two identities never hold a standing Lease at the same time: a write of one
/// identity comes only after every Lease that another identity wrote before it has
/// run out, counted from the microsecond in which that Lease was written.
///
/// This is so as far as the clocks of the replicas agree, as each identity keeps to
/// one lease duration, and as every write but the first builds on the Lease that is
/// stored: it does not reach across a deletion of the Lease.
pub proof fn law_tenures_do_not_overlap<E>(
    writes: Seq<AcceptedWrite>,
    first_event: LeaseEventView<E>,
    i: int,
    j: int,
)
    requires
        is_history::<E>(writes),
        writes.len() > 0 ==> is_write(writes[0].config, writes[0].at, first_event, writes[0].lease),
        forall|a: int, b: int|
            0 <= a <= b < writes.len() ==> #[trigger] writes[a].at <= #[trigger] writes[b].at,
        forall|a: int, b: int|
            0 <= a < writes.len() && 0 <= b < writes.len() && #[trigger] writes[a].config.identity@
                == #[trigger] writes[b].config.identity@ ==> writes[a].config.lease_duration_secs
                == writes[b].config.lease_duration_secs,
        0 <= i < j < writes.len(),
        writes[i].config.identity@ != writes[j].config.identity@,
    ensures
        writes[j].at > stands_until(writes[i].at, writes[i].config.lease_duration_secs),
    decreases j - i,
{
    let first = writes[i];
    let next = writes[i + 1];
    let event = if i == 0 {
        first_event
    } else {
        LeaseEventView::Fetched(Ok(stored(writes[i - 1].lease, writes[i - 1].version)))
    };
    assert(i > 0 ==> builds_on_previous::<E>(writes, i));
    assert(builds_on_previous::<E>(writes, i + 1));
    law_writes_claim_the_lease(first.config, first.at, event, first.lease);
    if next.config.identity@ == first.config.identity@ {
        law_tenures_do_not_overlap(writes, first_event, i + 1, j);
    } else {
        let read = stored(first.lease, first.version);
        law_takeover_only_after_expiry::<E>(next.config, next.at, read, next.lease);
    }
}

/// An attempt begins by reading the Lease that the configuration names.
pub proof fn law_attempt_begins_by_reading<E>(
    config: &LeaderElectionConfig,
    now: MicroTime,
    event: LeaseEvent<E>,
    action: LeaseAction<E>,
)
    requires
        call_ensures(try_acquire_or_renew::<E>, (config, now, event), action),
    ensures
        event is Started ==> (action matches LeaseAction::Get { namespace, name } && namespace@
            == config.namespace@ && name@ == config.name@),
        action is Get ==> event is Started,
{
}

/// Where there is no Lease it is created, under every configuration and at every
/// instant: under the configured name in the configured namespace, held by the
/// configured identity for the configured duration, acquired and renewed at that
/// instant, with no transitions and no version. Nothing else creates one.
pub proof fn law_missing_lease_is_created<E>(
    config: &LeaderElectionConfig,
    now: MicroTime,
    event: LeaseEvent<E>,
    action: LeaseAction<E>,
)
    requires
        call_ensures(try_acquire_or_renew::<E>, (config, now, event), action),
    ensures
        action is Create <==> (event matches LeaseEvent::Fetched(Err(failure)) && failure.code
            == Some(404u16)),
        action matches LeaseAction::Create { namespace, lease } ==> {
            &&& namespace@ == config.namespace@
            &&& lease.metadata.name matches Some(s) && s@ == config.name@
            &&& lease.metadata.namespace matches Some(s) && s@ == config.namespace@
            &&& lease.metadata.resource_version is None
            &&& lease.spec matches Some(spec) && {
                &&& spec.holder_identity matches Some(s) && s@ == config.identity@
                &&& spec.lease_duration_seconds == Some(config.lease_duration_secs)
                &&& spec.acquire_time matches Some(t) && t@ == now@
                &&& spec.renew_time matches Some(t) && t@ == now@
                &&& spec.lease_transitions == Some(0i32)
            }
        },
{
}

/// A Lease that names another holder, or none, is left alone up to and including the
/// instant that lies its duration after its last renewal. Where the Lease does not say
/// how long it lasts, the configured duration counts.
pub proof fn law_standing_lease_is_left_alone<E>(
    config: &LeaderElectionConfig,
    now: MicroTime,
    lease: Lease,
    spec: LeaseSpec,
    renewed: MicroTime,
    seconds: i32,
    action: LeaseAction<E>,
)
    requires
        call_ensures(
            try_acquire_or_renew::<E>,
            (config, now, LeaseEvent::Fetched(Ok(lease))),
            action,
        ),
        lease.spec == Some(spec),
        spec.holder_identity matches Some(holder) ==> holder@ != config.identity@,
        spec.renew_time == Some(renewed),
        spec.lease_duration_seconds == Some(seconds) || spec.lease_duration_seconds is None
            && seconds == config.lease_duration_secs,
        now@ <= renewed@ + seconds * 1_000_000_000,
    ensures
        action == LeaseAction::<E>::Finish(Ok(false)),
{
}

/// A Lease that names another holder, or none, is taken over from the instant on at
/// which it has run out, or if it was never renewed: it is replaced, under the version
/// that was read, by one that the configured identity holds from now on, with one
/// transition more where they are counted.
pub proof fn law_lease_that_ran_out_is_taken_over<E>(
    config: &LeaderElectionConfig,
    now: MicroTime,
    lease: Lease,
    spec: LeaseSpec,
    seconds: i32,
    action: LeaseAction<E>,
)
    requires
        call_ensures(
            try_acquire_or_renew::<E>,
            (config, now, LeaseEvent::Fetched(Ok(lease))),
            action,
        ),
        lease.spec == Some(spec),
        spec.holder_identity matches Some(holder) ==> holder@ != config.identity@,
        spec.lease_duration_seconds == Some(seconds) || spec.lease_duration_seconds is None
            && seconds == config.lease_duration_secs,
        spec.renew_time matches Some(renewed) ==> now@ > renewed@ + seconds * 1_000_000_000,
        spec.lease_transitions != Some(i32::MAX),
    ensures
        action matches LeaseAction::Replace { namespace, name, lease: written } && {
            &&& namespace@ == config.namespace@
            &&& name@ == config.name@
            &&& written.metadata.name matches Some(s) && s@ == config.name@
            &&& written.metadata.namespace matches Some(s) && s@ == config.namespace@
            &&& match lease.metadata.resource_version {
                Some(read) => written.metadata.resource_version matches Some(s) && s@ == read@,
                None => written.metadata.resource_version is None,
            }
            &&& written.spec matches Some(claim) && {
                &&& claim.holder_identity matches Some(s) && s@ == config.identity@
                &&& claim.lease_duration_seconds == Some(config.lease_duration_secs)
                &&& claim.acquire_time matches Some(t) && t@ == now@
                &&& claim.renew_time matches Some(t) && t@ == now@
                &&& match spec.lease_transitions {
                    Some(n) => claim.lease_transitions matches Some(m) && m == n + 1,
                    None => claim.lease_transitions is None,
                }
            }
        },
{
}

/// A Lease that names the configured identity is renewed, whether or not it has run
/// out: it is replaced, under the version that was read, by one that was renewed now.
/// The time of acquisition and the count of transitions are those that were read; a
/// missing time of acquisition is filled in.
pub proof fn law_own_lease_is_renewed<E>(
    config: &LeaderElectionConfig,
    now: MicroTime,
    lease: Lease,
    spec: LeaseSpec,
    holder: String,
    action: LeaseAction<E>,
)
    requires
        call_ensures(
            try_acquire_or_renew::<E>,
            (config, now, LeaseEvent::Fetched(Ok(lease))),
            action,
        ),
        lease.spec == Some(spec),
        spec.holder_identity == Some(holder),
        holder@ == config.identity@,
    ensures
        action matches LeaseAction::Replace { namespace, name, lease: written } && {
            &&& namespace@ == config.namespace@
            &&& name@ == config.name@
            &&& written.metadata.name matches Some(s) && s@ == config.name@
            &&& written.metadata.namespace matches Some(s) && s@ == config.namespace@
            &&& match lease.metadata.resource_version {
                Some(read) => written.metadata.resource_version matches Some(s) && s@ == read@,
                None => written.metadata.resource_version is None,
            }
            &&& written.spec matches Some(claim) && {
                &&& claim.holder_identity matches Some(s) && s@ == config.identity@
                &&& claim.lease_duration_seconds == Some(config.lease_duration_secs)
                &&& match spec.acquire_time {
                    Some(acquired) => claim.acquire_time matches Some(t) && t@ == acquired@,
                    None => claim.acquire_time matches Some(t) && t@ == now@,
                }
                &&& claim.renew_time matches Some(t) && t@ == now@
                &&& claim.lease_transitions == spec.lease_transitions
            }
        },
{
}

/// A Lease without a spec is claimed, under the version that was read, without a count
/// of transitions.
pub proof fn law_bare_lease_is_claimed<E>(
    config: &LeaderElectionConfig,
    now: MicroTime,
    lease: Lease,
    action: LeaseAction<E>,
)
    requires
        call_ensures(
            try_acquire_or_renew::<E>,
            (config, now, LeaseEvent::Fetched(Ok(lease))),
            action,
        ),
        lease.spec is None,
    ensures
        action matches LeaseAction::Replace { namespace, name, lease: written } && {
            &&& namespace@ == config.namespace@
            &&& name@ == config.name@
            &&& written.metadata.name matches Some(s) && s@ == config.name@
            &&& written.metadata.namespace matches Some(s) && s@ == config.namespace@
            &&& match lease.metadata.resource_version {
                Some(read) => written.metadata.resource_version matches Some(s) && s@ == read@,
                None => written.metadata.resource_version is None,
            }
            &&& written.spec matches Some(claim) && {
                &&& claim.holder_identity matches Some(s) && s@ == config.identity@
                &&& claim.lease_duration_seconds == Some(config.lease_duration_secs)
                &&& claim.acquire_time matches Some(t) && t@ == now@
                &&& claim.renew_time matches Some(t) && t@ == now@
                &&& claim.lease_transitions is None
            }
        },
{
}

/// An attempt says that another identity holds the Lease only where it has read a Lease
/// that does not name this one and has not run out, or where its write conflicted.
pub proof fn law_refusal_has_a_cause<E>(
    config: &LeaderElectionConfig,
    now: MicroTime,
    event: LeaseEvent<E>,
    action: LeaseAction<E>,
)
    requires
        call_ensures(try_acquire_or_renew::<E>, (config, now, event), action),
        action == LeaseAction::<E>::Finish(Ok(false)),
    ensures
        match event {
            LeaseEvent::Started => false,
            LeaseEvent::Fetched(Err(_)) => false,
            LeaseEvent::Fetched(Ok(lease)) => lease.spec matches Some(spec) && {
                &&& spec.holder_identity matches Some(holder) ==> holder@ != config.identity@
                &&& spec.renew_time matches Some(renewed) && now@ <= renewed@ + (
                match spec.lease_duration_seconds {
                    Some(seconds) => seconds,
                    None => config.lease_duration_secs,
                }) * 1_000_000_000
            },
            LeaseEvent::Written(Ok(_)) => false,
            LeaseEvent::Written(Err(failure)) => failure.code == Some(409u16),
        },
{
}

/// What a request answered decides how an attempt ends: an accepted write makes the
/// leader, a conflict does not, and any other failure is passed on, but for a read that
/// finds no Lease.
pub proof fn law_replies_decide<E>(
    config: &LeaderElectionConfig,
    now: MicroTime,
    event: LeaseEvent<E>,
    action: LeaseAction<E>,
)
    requires
        call_ensures(try_acquire_or_renew::<E>, (config, now, event), action),
    ensures
        match event {
            LeaseEvent::Written(Ok(_)) => action == LeaseAction::<E>::Finish(Ok(true)),
            LeaseEvent::Written(Err(failure)) => if failure.code == Some(409u16) {
                action == LeaseAction::<E>::Finish(Ok(false))
            } else {
                action == LeaseAction::<E>::Finish(Err(failure.error))
            },
            LeaseEvent::Fetched(Err(failure)) => failure.code != Some(404u16) ==> action
                == LeaseAction::<E>::Finish(Err(failure.error)),
            _ => action matches LeaseAction::Finish(result) ==> result == Result::<bool, E>::Ok(
                false,
            ),
        },
{
}

/// An attempt can be decided exactly where the instant at which the Lease runs out is
/// that of a timestamp, and where a takeover does not overflow the transitions.
pub proof fn law_decidable_unless_it_overflows(
    config: &LeaderElectionConfig,
    lease: Lease,
    spec: LeaseSpec,
    seconds: i32,
    now: MicroTime,
    possible: bool,
)
    requires
        call_ensures(LeaderElectionConfig::can_decide, (config, &lease, now), possible),
        lease.spec == Some(spec),
        spec.lease_duration_seconds == Some(seconds) || spec.lease_duration_seconds is None
            && seconds == config.lease_duration_secs,
    ensures
        possible <==> {
            &&& spec.renew_time matches Some(renewed) ==> -377_705_023_201_000_000_000 <= renewed@
                + seconds * 1_000_000_000 <= 253_402_207_200_999_999_999
            &&& spec.lease_transitions == Some(i32::MAX) ==> {
                ||| spec.holder_identity matches Some(holder) && holder@ == config.identity@
                ||| spec.renew_time matches Some(renewed) && now@ <= renewed@ + seconds
                    * 1_000_000_000
            }
        },
{
}

/// A Lease without a spec can always be decided on.
pub proof fn law_bare_lease_is_decidable(
    config: &LeaderElectionConfig,
    lease: Lease,
    now: MicroTime,
    possible: bool,
)
    requires
        call_ensures(LeaderElectionConfig::can_decide, (config, &lease, now), possible),
        lease.spec is None,
    ensures
        possible,
{
}

} // verus!

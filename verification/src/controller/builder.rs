//! The settings of a controller.

use crate::controller::election::LeaderElectionConfig;
use crate::controller::watcher;
use crate::identity;
use crate::time;
use std::marker::PhantomData;
use std::time::Duration;
use vstd::prelude::*;

verus! {

/// The handle of an API, which is carried through.
#[verifier::external_type_specification]
#[verifier::external_body]
#[verifier::reject_recursive_types(K)]
pub struct ExApi<K>(kube::Api<K>);

/// One or more watches to be added to a controller. The watch registered last
/// is added first.
#[derive(Debug)]
pub enum Configure<W> {
    /// Add this watch.
    Only(W),
    /// Add this watch, and then the others.
    Then(W, Box<Configure<W>>),
}

impl<W> Configure<W> {
    /// The watches in the order in which they are added.
    pub open spec fn in_order(self) -> Seq<W>
        decreases self,
    {
        match self {
            Configure::Only(watch) => seq![watch],
            Configure::Then(watch, others) => seq![watch] + (*others).in_order(),
        }
    }
}

impl<W> View for Configure<W> {
    type V = Seq<W>;

    open spec fn view(&self) -> Seq<W> {
        self.in_order()
    }
}

/// The watches that are to be added, in that order.
pub open spec fn watches<W>(configure: Option<Configure<W>>) -> Seq<W> {
    match configure {
        Some(configure) => configure@,
        None => Seq::empty(),
    }
}

impl<W> Configure<W> {
    /// `watch` on top of the watches registered before it.
    fn on_top_of(watch: W, existing: Option<Configure<W>>) -> (r: Configure<W>)
        ensures
            r@ == registered(watches(existing), watch),
    {
        match existing {
            Some(others) => Configure::Then(watch, Box::new(others)),
            None => Configure::Only(watch),
        }
    }

    /// Adds the watches to `controller`.
    pub fn apply<C>(self, controller: C) -> (r: C) where W: FnOnce(C) -> C
        requires
            forall|i: int, c: C| 0 <= i < self@.len() ==> #[trigger] self@[i].requires((c,)),
        ensures
            added(self@, controller, r),
        decreases self,
    {
        match self {
            Configure::Only(watch) => {
                assert(self@[0] == watch);
                let r = watch(controller);
                assert(added(self@.drop_first(), r, r));
                r
            },
            Configure::Then(watch, others) => {
                assert(self@[0] == watch);
                assert(self@.drop_first() =~= (*others)@);
                assert forall|i: int, c: C| 0 <= i < (*others)@.len() implies #[trigger] (
                *others)@[i].requires((c,)) by {
                    assert(self@[i + 1].requires((c,)));
                }
                let next = watch(controller);
                (*others).apply(next)
            },
        }
    }
}

/// Whether `after` is what comes of `before` by adding `watches`, one after
/// another.
pub open spec fn added<W, C>(watches: Seq<W>, before: C, after: C) -> bool where W: FnOnce(C) -> C
    decreases watches.len(),
{
    if watches.len() == 0 {
        after == before
    } else {
        exists|next: C|
            #[trigger] watches[0].ensures((before,), next) && added(
                watches.drop_first(),
                next,
                after,
            )
    }
}

/// The duration of `secs` seconds as a Lease can hold it.
pub open spec fn lease_seconds(secs: u64) -> i32 {
    if secs <= i32::MAX {
        secs as i32
    } else {
        i32::MAX
    }
}

/// Builder for a controller of resources `CR` with watches `W` and shared
/// context data `T`.
///
/// | Method | What it provides |
/// |--------|-----------------|
/// | `health_port` | `GET /healthz` + `GET /readyz` server |
/// | `metrics_port` | `GET /metrics` server |
/// | `graceful_shutdown` | Clean stop on SIGTERM or Ctrl+C |
/// | `leader_election` | Kubernetes Lease-based leader election |
/// | `reconcile_timeout` | Cancel and requeue stuck reconciles |
#[verifier::reject_recursive_types(CR)]
pub struct ControllerBuilder<CR, W, T = ()> {
    pub api: kube::Api<CR>,
    pub watcher_config: watcher::Config,
    pub configure: Option<Configure<W>>,
    pub health_port: Option<u16>,
    pub metrics_port: Option<u16>,
    pub graceful_shutdown: bool,
    pub reconcile_timeout: Option<Duration>,
    pub leader_election: Option<LeaderElectionConfig>,
    pub concurrency: Option<u16>,
    pub _phantom: PhantomData<T>,
}

impl<CR, W, T> ControllerBuilder<CR, W, T> {
    /// A builder from a pre-built `Api`, which determines the watch scope, with
    /// everything else off.
    pub fn new(api: kube::Api<CR>) -> (r: Self)
        ensures
            r == (Self {
                api,
                watcher_config: watcher::default_config(),
                configure: None,
                health_port: None,
                metrics_port: None,
                graceful_shutdown: false,
                reconcile_timeout: None,
                leader_election: None,
                concurrency: None,
                _phantom: PhantomData,
            }),
    {
        Self {
            api,
            watcher_config: watcher::Config::default(),
            configure: None,
            health_port: None,
            metrics_port: None,
            graceful_shutdown: false,
            reconcile_timeout: None,
            leader_election: None,
            concurrency: None,
            _phantom: PhantomData,
        }
    }

    /// Start a health probe HTTP server on `0.0.0.0:<port>`.
    pub fn health_port(self, port: u16) -> (r: Self)
        ensures
            r == (Self { health_port: Some(port), ..self }),
    {
        Self { health_port: Some(port), ..self }
    }

    /// Start a Prometheus metrics server on `0.0.0.0:<port>`.
    pub fn metrics_port(self, port: u16) -> (r: Self)
        ensures
            r == (Self { metrics_port: Some(port), ..self }),
    {
        Self { metrics_port: Some(port), ..self }
    }

    /// Stop the controller loop cleanly on SIGTERM or Ctrl+C.
    ///
    /// A stop while the leader lease is sought ends the wait, and nothing is reconciled.
    pub fn graceful_shutdown(self) -> (r: Self)
        ensures
            r == (Self { graceful_shutdown: true, ..self }),
    {
        Self { graceful_shutdown: true, ..self }
    }

    /// Enable leader election on the Lease `name` in `namespace`.
    ///
    /// The lease stands for 15 seconds, is renewed every 5 and sought every 2.
    /// This replica is known by `pod_name`, or else by `hostname`, whichever is
    /// set and not empty.
    pub fn leader_election(
        self,
        namespace: String,
        name: String,
        pod_name: Option<String>,
        hostname: Option<String>,
    ) -> (r: Self)
        ensures
            r == (Self { leader_election: r.leader_election, ..self }),
            r.leader_election matches Some(le) && {
                &&& le.namespace == namespace
                &&& le.name == name
                &&& le.identity@ == identity::identity_of(pod_name, hostname)
                &&& le.identity@.len() > 0
                &&& le.lease_duration_secs == 15
                &&& le.renew_period == time::duration_from_secs(5)
                &&& time::duration_as_secs(le.renew_period) == 5
                &&& le.retry_period == time::duration_from_secs(2)
                &&& time::duration_as_secs(le.retry_period) == 2
            },
    {
        let le = LeaderElectionConfig {
            namespace,
            name,
            identity: identity::replica_identity(pod_name, hostname),
            lease_duration_secs: 15,
            renew_period: Duration::from_secs(5),
            retry_period: Duration::from_secs(2),
        };
        Self { leader_election: Some(le), ..self }
    }

    /// Cancel and requeue any reconcile that runs longer than `timeout`.
    pub fn reconcile_timeout(self, timeout: Duration) -> (r: Self)
        ensures
            r == (Self { reconcile_timeout: Some(timeout), ..self }),
    {
        Self { reconcile_timeout: Some(timeout), ..self }
    }

    /// Apply a label selector to the primary resource watch.
    pub fn label_selector(self, selector: &str) -> (r: Self)
        ensures
            r.watcher_config.label_selector matches Some(s) && s@ == selector@,
            r == (Self {
                watcher_config: watcher::Config {
                    label_selector: r.watcher_config.label_selector,
                    ..self.watcher_config
                },
                ..self
            }),
    {
        Self { watcher_config: self.watcher_config.labels(selector), ..self }
    }

    /// Override the watcher configuration for the primary resource watch.
    pub fn watcher_config(self, config: watcher::Config) -> (r: Self)
        ensures
            r == (Self { watcher_config: config, ..self }),
    {
        Self { watcher_config: config, ..self }
    }

    /// Limit the number of reconciles that may run concurrently.
    pub fn concurrency(self, n: u16) -> (r: Self)
        ensures
            r == (Self { concurrency: Some(n), ..self }),
    {
        Self { concurrency: Some(n), ..self }
    }

    /// Override the timing parameters for leader election, which must have been
    /// enabled before.
    ///
    /// | Parameter | Meaning |
    /// |-----------|---------|
    /// | `lease_duration` | How long the lease is valid without renewal |
    /// | `renew_period` | How often the leader renews the lease |
    /// | `retry_period` | How often a non-leader retries acquisition |
    ///
    /// A Lease holds its duration in whole seconds, and no more than `i32::MAX` of
    /// them: a fraction is dropped, and a longer duration is cut to that.
    pub fn leader_election_timings(
        self,
        lease_duration: Duration,
        renew_period: Duration,
        retry_period: Duration,
    ) -> (r: Self)
        requires
            self.leader_election is Some,
        ensures
            r == (Self {
                leader_election: Some(
                    LeaderElectionConfig {
                        lease_duration_secs: lease_seconds(time::duration_as_secs(lease_duration)),
                        renew_period,
                        retry_period,
                        ..self.leader_election->0
                    },
                ),
                ..self
            }),
    {
        let le = self.leader_election.expect(
            "leader_election_timings must be called after leader_election",
        );
        let secs: u64 = lease_duration.as_secs();
        let lease_duration_secs: i32 = if secs <= i32::MAX as u64 {
            secs as i32
        } else {
            i32::MAX
        };
        let le = LeaderElectionConfig {
            lease_duration_secs,
            renew_period,
            retry_period,
            ..le
        };
        Self { leader_election: Some(le), ..self }
    }

    /// Watch child resources that the resource owns by owner references.
    ///
    /// Multiple calls compose: each adds another watch on top of those
    /// registered before.
    pub fn owns(self, watch: W) -> (r: Self)
        ensures
            r == (Self { configure: r.configure, ..self }),
            r.configure is Some,
            watches(r.configure) == registered(watches(self.configure), watch),
    {
        Self { configure: Some(Configure::on_top_of(watch, self.configure)), ..self }
    }

    /// Watch a secondary resource whose changes requeue the resources that a
    /// mapper names.
    ///
    /// Multiple calls compose: each adds another watch on top of those
    /// registered before.
    pub fn watch(self, watch: W) -> (r: Self)
        ensures
            r == (Self { configure: r.configure, ..self }),
            r.configure is Some,
            watches(r.configure) == registered(watches(self.configure), watch),
    {
        Self { configure: Some(Configure::on_top_of(watch, self.configure)), ..self }
    }

    /// Add watches of any kind.
    ///
    /// Multiple calls compose: each adds another watch on top of those
    /// registered before.
    pub fn with_watches(self, configure: W) -> (r: Self)
        ensures
            r == (Self { configure: r.configure, ..self }),
            r.configure is Some,
            watches(r.configure) == registered(watches(self.configure), configure),
    {
        Self { configure: Some(Configure::on_top_of(configure, self.configure)), ..self }
    }
}

/// The watches there are after one more has been registered.
pub open spec fn registered<W>(existing: Seq<W>, watch: W) -> Seq<W> {
    seq![watch] + existing
}

/// The watches there are after `later` have been registered, one after another.
pub open spec fn all_registered<W>(existing: Seq<W>, later: Seq<W>) -> Seq<W>
    decreases later.len(),
{
    if later.len() == 0 {
        existing
    } else {
        registered(all_registered(existing, later.drop_last()), later.last())
    }
}

/// Registrations compose: each watch is added exactly once, none is lost, and the
/// one registered last is added first.
pub proof fn law_watches_compose<W>(existing: Seq<W>, later: Seq<W>)
    ensures
        all_registered(existing, later) == later.reverse() + existing,
    decreases later.len(),
{
    if later.len() > 0 {
        law_watches_compose(existing, later.drop_last());
        assert(seq![later.last()] + later.drop_last().reverse() =~= later.reverse());
        assert(all_registered(existing, later) =~= later.reverse() + existing);
    } else {
        assert(later.reverse() + existing =~= existing);
    }
}

/// A watch that is registered on top of others is added to the controller first,
/// and the others to what comes of that.
pub proof fn law_last_registered_is_added_first<W, C>(
    existing: Seq<W>,
    watch: W,
    before: C,
    after: C,
) where W: FnOnce(C) -> C
    ensures
        added(registered(existing, watch), before, after) <==> exists|next: C|
            #[trigger] watch.ensures((before,), next) && added(existing, next, after),
{
    let all = registered(existing, watch);
    assert(all.drop_first() =~= existing);
    assert(all[0] == watch);
}

/// A builder starts with everything off but the watch of its own resource.
pub proof fn law_builder_starts_with_everything_off<CR, W, T>(
    api: kube::Api<CR>,
    r: ControllerBuilder<CR, W, T>,
)
    requires
        call_ensures(ControllerBuilder::<CR, W, T>::new, (api,), r),
    ensures
        r.api == api,
        r.watcher_config.label_selector is None,
        r.watcher_config.field_selector is None,
        r.watcher_config.timeout is None,
        r.watcher_config.list_semantic is MostRecent,
        r.watcher_config.initial_list_strategy is ListWatch,
        r.watcher_config.page_size == Some(500u32),
        r.watcher_config.bookmarks,
        r.configure is None,
        r.health_port is None,
        r.metrics_port is None,
        !r.graceful_shutdown,
        r.reconcile_timeout is None,
        r.leader_election is None,
        r.concurrency is None,
{
}

/// Each of the ports, the shutdown flag, the timeout and the limit is set to what is
/// given, whatever it was before, and nothing else changes.
pub proof fn law_settings_are_independent<CR, W, T>(
    b: ControllerBuilder<CR, W, T>,
    port: u16,
    timeout: Duration,
    n: u16,
    health: ControllerBuilder<CR, W, T>,
    metrics: ControllerBuilder<CR, W, T>,
    shutdown: ControllerBuilder<CR, W, T>,
    timed: ControllerBuilder<CR, W, T>,
    limited: ControllerBuilder<CR, W, T>,
)
    requires
        call_ensures(ControllerBuilder::<CR, W, T>::health_port, (b, port), health),
        call_ensures(ControllerBuilder::<CR, W, T>::metrics_port, (b, port), metrics),
        call_ensures(ControllerBuilder::<CR, W, T>::graceful_shutdown, (b,), shutdown),
        call_ensures(ControllerBuilder::<CR, W, T>::reconcile_timeout, (b, timeout), timed),
        call_ensures(ControllerBuilder::<CR, W, T>::concurrency, (b, n), limited),
    ensures
        health == (ControllerBuilder { health_port: Some(port), ..b }),
        metrics == (ControllerBuilder { metrics_port: Some(port), ..b }),
        shutdown == (ControllerBuilder { graceful_shutdown: true, ..b }),
        timed == (ControllerBuilder { reconcile_timeout: Some(timeout), ..b }),
        limited == (ControllerBuilder { concurrency: Some(n), ..b }),
{
}

/// A label selector, and a whole watcher configuration, are taken as they are; the
/// selector keeps the rest of the configuration, and both keep everything else.
pub proof fn law_watch_options_are_taken_as_they_are<CR, W, T>(
    b: ControllerBuilder<CR, W, T>,
    selector: &str,
    config: watcher::Config,
    selected: ControllerBuilder<CR, W, T>,
    configured: ControllerBuilder<CR, W, T>,
)
    requires
        call_ensures(ControllerBuilder::<CR, W, T>::label_selector, (b, selector), selected),
        call_ensures(ControllerBuilder::<CR, W, T>::watcher_config, (b, config), configured),
    ensures
        selected.watcher_config.label_selector matches Some(s) && s@ == selector@,
        selected.watcher_config.field_selector == b.watcher_config.field_selector,
        selected.watcher_config.timeout == b.watcher_config.timeout,
        selected.watcher_config.list_semantic == b.watcher_config.list_semantic,
        selected.watcher_config.initial_list_strategy == b.watcher_config.initial_list_strategy,
        selected.watcher_config.page_size == b.watcher_config.page_size,
        selected.watcher_config.bookmarks == b.watcher_config.bookmarks,
        selected == (ControllerBuilder { watcher_config: selected.watcher_config, ..b }),
        configured.watcher_config == config,
        configured == (ControllerBuilder { watcher_config: config, ..b }),
{
}

/// Leader election is on the Lease that is named, in the namespace that is named, for
/// fifteen seconds, renewed every five and sought every two. The replica competes under
/// the name of its pod as it is, or else of its host, or else as `unknown`.
pub proof fn law_leader_election_is_as_asked<CR, W, T>(
    b: ControllerBuilder<CR, W, T>,
    namespace: String,
    name: String,
    pod_name: Option<String>,
    hostname: Option<String>,
    r: ControllerBuilder<CR, W, T>,
)
    requires
        call_ensures(
            ControllerBuilder::<CR, W, T>::leader_election,
            (b, namespace, name, pod_name, hostname),
            r,
        ),
    ensures
        r == (ControllerBuilder { leader_election: r.leader_election, ..b }),
        r.leader_election matches Some(le) && {
            &&& le.namespace == namespace
            &&& le.name == name
            &&& le.lease_duration_secs == 15
            &&& time::duration_as_secs(le.renew_period) == 5
            &&& time::duration_as_secs(le.retry_period) == 2
            &&& le.identity@.len() > 0
            &&& pod_name matches Some(pod) ==> pod@.len() > 0 ==> le.identity@ == pod@
            &&& pod_name is None || pod_name->0@.len() == 0 ==> (hostname matches Some(host) ==> (
            host@.len() > 0 ==> le.identity@ == host@))
            &&& (pod_name is None || pod_name->0@.len() == 0) && (hostname is None
                || hostname->0@.len() == 0) ==> le.identity@ == "unknown"@
        },
{
}

/// Two replicas whose pods have different names compete under different identities.
pub proof fn law_candidates_are_told_apart<CR, W, T>(
    b: ControllerBuilder<CR, W, T>,
    namespace: String,
    name: String,
    pod: String,
    other_pod: String,
    hostname: Option<String>,
    other_hostname: Option<String>,
    r: ControllerBuilder<CR, W, T>,
    other: ControllerBuilder<CR, W, T>,
)
    requires
        call_ensures(
            ControllerBuilder::<CR, W, T>::leader_election,
            (b, namespace, name, Some(pod), hostname),
            r,
        ),
        call_ensures(
            ControllerBuilder::<CR, W, T>::leader_election,
            (b, namespace, name, Some(other_pod), other_hostname),
            other,
        ),
        pod@.len() > 0,
        other_pod@.len() > 0,
        pod@ != other_pod@,
    ensures
        r.leader_election matches Some(le) && other.leader_election matches Some(other_le)
            && le.identity@ != other_le.identity@,
{
}

/// The timings replace those of leader election and nothing else. A lease stands for the
/// whole seconds that are asked for, up to the most that a Lease can hold, so one that is
/// asked to stand longer never stands shorter.
pub proof fn law_timings_are_as_asked<CR, W, T>(
    b: ControllerBuilder<CR, W, T>,
    lease_duration: Duration,
    renew_period: Duration,
    retry_period: Duration,
    le: LeaderElectionConfig,
    r: ControllerBuilder<CR, W, T>,
)
    requires
        call_ensures(
            ControllerBuilder::<CR, W, T>::leader_election_timings,
            (b, lease_duration, renew_period, retry_period),
            r,
        ),
        b.leader_election == Some(le),
    ensures
        r == (ControllerBuilder { leader_election: r.leader_election, ..b }),
        r.leader_election matches Some(timed) && {
            &&& timed.namespace == le.namespace
            &&& timed.name == le.name
            &&& timed.identity == le.identity
            &&& timed.renew_period == renew_period
            &&& timed.retry_period == retry_period
            &&& time::duration_as_secs(lease_duration) <= 0x7fff_ffff ==> timed.lease_duration_secs
                == time::duration_as_secs(lease_duration)
            &&& time::duration_as_secs(lease_duration) > 0x7fff_ffff ==> timed.lease_duration_secs
                == 0x7fff_ffff
        },
{
}

/// However a watch is registered, it goes before those that were there, which stay as
/// they are, and nothing else changes.
pub proof fn law_watches_are_put_on_top<CR, W, T>(
    b: ControllerBuilder<CR, W, T>,
    watch: W,
    owning: ControllerBuilder<CR, W, T>,
    watching: ControllerBuilder<CR, W, T>,
    configured: ControllerBuilder<CR, W, T>,
)
    requires
        call_ensures(ControllerBuilder::<CR, W, T>::owns, (b, watch), owning),
        call_ensures(ControllerBuilder::<CR, W, T>::watch, (b, watch), watching),
        call_ensures(ControllerBuilder::<CR, W, T>::with_watches, (b, watch), configured),
    ensures
        owning == (ControllerBuilder { configure: owning.configure, ..b }),
        watching == (ControllerBuilder { configure: watching.configure, ..b }),
        configured == (ControllerBuilder { configure: configured.configure, ..b }),
        owning.configure matches Some(all) && all@ == seq![watch] + (match b.configure {
            Some(others) => others@,
            None => Seq::empty(),
        }),
        watching.configure matches Some(all) && all@ == owning.configure->0@,
        configured.configure matches Some(all) && all@ == owning.configure->0@,
{
}

/// The watches of a registration are the one on top and then the others, all of them.
pub proof fn law_registrations_hold_all_watches<W>(watch: W, others: Configure<W>)
    ensures
        Configure::Only(watch)@ == seq![watch],
        Configure::Then(watch, Box::new(others))@ == seq![watch] + others@,
        others@.len() > 0,
{
}

/// Whether `states` leads from `before` to `after` by one watch after another.
pub open spec fn is_chain<W, C>(watches: Seq<W>, states: Seq<C>, before: C, after: C) -> bool where
    W: FnOnce(C) -> C,
 {
    &&& states.len() == watches.len() + 1
    &&& states[0] == before
    &&& states[watches.len() as int] == after
    &&& forall|k: int|
        0 <= k < watches.len() ==> #[trigger] watches[k].ensures((states[k],), states[k + 1])
}

/// A controller to which watches are added has been through each of them exactly once, in
/// order: each was given what the one before it returned.
pub proof fn law_every_watch_is_added_once<W, C>(
    configure: Configure<W>,
    before: C,
    after: C,
) where W: FnOnce(C) -> C
    requires
        call_ensures(Configure::<W>::apply::<C>, (configure, before), after),
    ensures
        exists|states: Seq<C>| #[trigger] is_chain(configure@, states, before, after),
{
    lemma_added_is_a_chain(configure@, before, after);
}

/// What comes of adding watches one after another comes of a chain of them.
proof fn lemma_added_is_a_chain<W, C>(watches: Seq<W>, before: C, after: C) where W: FnOnce(C) -> C
    requires
        added(watches, before, after),
    ensures
        exists|states: Seq<C>| #[trigger] is_chain(watches, states, before, after),
    decreases watches.len(),
{
    if watches.len() == 0 {
        assert(is_chain(watches, seq![before], before, after));
    } else {
        let next = choose|next: C|
            #[trigger] watches[0].ensures((before,), next) && added(
                watches.drop_first(),
                next,
                after,
            );
        let rest = watches.drop_first();
        lemma_added_is_a_chain(rest, next, after);
        let tail = choose|tail: Seq<C>| #[trigger] is_chain(rest, tail, next, after);
        let states = seq![before] + tail;
        assert forall|k: int| 0 <= k < watches.len() implies #[trigger] watches[k].ensures(
            (states[k],),
            states[k + 1],
        ) by {
            if k > 0 {
                assert(rest[k - 1].ensures((tail[k - 1],), tail[k]));
            }
        }
        assert(is_chain(watches, states, before, after));
    }
}

} // verus!

//! Health probes.

use vstd::prelude::*;

verus! {

/// The reply to a health probe.
#[derive(Debug, Clone, Copy, PartialEq, Eq)]
pub struct HealthResponse {
    pub status: u16,
    pub content_type: &'static str,
    pub body: &'static str,
}

/// Whether a probe of `path` succeeds after `results` reconcile results: the
/// readiness probe once there is one, any other always.
pub open spec fn probe_succeeds(path: Seq<char>, results: nat) -> bool {
    path == "/readyz"@ ==> results > 0
}

/// What the controller runtime reports of its loop.
#[derive(Debug, Clone, Copy, PartialEq, Eq, Structural)]
pub enum LoopItem {
    /// A reconcile succeeded.
    Reconciled,
    /// A reconcile failed.
    ReconcilerFailed,
    /// The resource to be reconciled is gone.
    ObjectNotFound,
    /// A watch failed.
    QueueError,
    /// The runner of the loop failed.
    RunnerError,
}

impl LoopItem {
    /// Whether this is the result of a reconcile. The other items come without a
    /// reconcile call.
    pub open spec fn is_result(self) -> bool {
        self is Reconciled || self is ReconcilerFailed
    }
}

/// How many of `items` are the result of a reconcile.
pub open spec fn results_in(items: Seq<LoopItem>) -> nat
    decreases items.len(),
{
    if items.len() == 0 {
        0
    } else {
        results_in(items.drop_last()) + if items.last().is_result() {
            1nat
        } else {
            0nat
        }
    }
}

/// Whether the controller is ready: whether a reconcile has ended, with whatever
/// result.
pub struct Readiness {
    ready: bool,
    results: Ghost<nat>,
}

impl View for Readiness {
    type V = nat;

    /// How many reconcile results there have been.
    closed spec fn view(&self) -> nat {
        self.results@
    }
}

impl Readiness {
    #[verifier::type_invariant]
    spec fn ready_with_first_result(self) -> bool {
        self.ready == (self.results@ > 0)
    }

    /// A controller that has not reconciled yet.
    pub fn new() -> (r: Readiness)
        ensures
            r@ == 0,
    {
        Readiness { ready: false, results: Ghost(0) }
    }

    /// Records what the controller runtime reports of its loop.
    pub fn observed(&mut self, item: LoopItem)
        ensures
            final(self)@ == old(self)@ + (if item is Reconciled || item is ReconcilerFailed {
                1nat
            } else {
                0nat
            }),
    {
        match item {
            LoopItem::Reconciled | LoopItem::ReconcilerFailed => {
                *self = Readiness { ready: true, results: Ghost(self.results@ + 1) };
            },
            LoopItem::ObjectNotFound | LoopItem::QueueError | LoopItem::RunnerError => {},
        }
    }

    /// Answers a probe of `path`.
    pub fn respond(&self, path: &str) -> (r: HealthResponse)
        ensures
            r.content_type@ == "text/plain"@,
            probe_succeeds(path@, self@) ==> r.status == 200 && r.body@ == "ok"@,
            !probe_succeeds(path@, self@) ==> r.status == 503 && r.body@ == "not ready"@,
    {
        proof {
            use_type_invariant(self);
        }
        if path.to_string() == "/readyz".to_string() && !self.ready {
            HealthResponse { status: 503, content_type: "text/plain", body: "not ready" }
        } else {
            HealthResponse { status: 200, content_type: "text/plain", body: "ok" }
        }
    }
}

/// The liveness probe always succeeds, and so does a probe of any other path but
/// that of the readiness probe.
pub proof fn law_liveness_always_succeeds(path: Seq<char>, results: nat)
    ensures
        probe_succeeds("/healthz"@, results),
        path != "/readyz"@ ==> probe_succeeds(path, results),
{
    reveal_strlit("/healthz");
    reveal_strlit("/readyz");
    assert("/healthz"@.len() != "/readyz"@.len());
}

/// The readiness probe fails until the first reconcile result and succeeds from
/// then on.
pub proof fn law_readiness_begins_with_first_result(earlier: nat, later: nat)
    requires
        earlier <= later,
    ensures
        !probe_succeeds("/readyz"@, 0),
        probe_succeeds("/readyz"@, 1),
        probe_succeeds("/readyz"@, earlier) ==> probe_succeeds("/readyz"@, later),
{
}

/// After any reports of the loop the readiness probe succeeds exactly if one of
/// them is the result of a reconcile.
pub proof fn law_ready_once_a_reconcile_has_ended(items: Seq<LoopItem>)
    ensures
        probe_succeeds("/readyz"@, results_in(items)) <==> exists|i: int|
            0 <= i < items.len() && (#[trigger] items[i] is Reconciled
                || items[i] is ReconcilerFailed),
    decreases items.len(),
{
    if items.len() > 0 {
        let before = items.drop_last();
        law_ready_once_a_reconcile_has_ended(before);
        if results_in(before) > 0 {
            let i = choose|i: int|
                0 <= i < before.len() && (#[trigger] before[i] is Reconciled
                    || before[i] is ReconcilerFailed);
            assert(items[i] == before[i]);
        } else if items.last().is_result() {
            assert(items[items.len() - 1] == items.last());
        } else {
            assert forall|i: int| 0 <= i < items.len() implies !(#[trigger] items[i] is Reconciled
                || items[i] is ReconcilerFailed) by {
                if i < before.len() {
                    assert(before[i] == items[i]);
                }
            }
        }
    }
}

/// A probe is answered in plain text: with 200 and `ok`, but for the readiness probe
/// before the first reconcile result, which is answered with 503 and `not ready`.
pub proof fn law_probes_are_answered(readiness: &Readiness, path: &str, reply: HealthResponse)
    requires
        call_ensures(Readiness::respond, (readiness, path), reply),
    ensures
        reply.content_type@ == "text/plain"@,
        path@ == "/readyz"@ && readiness@ == 0 ==> reply.status == 503 && reply.body@
            == "not ready"@,
        path@ != "/readyz"@ || readiness@ > 0 ==> reply.status == 200 && reply.body@ == "ok"@,
{
}

/// A controller starts without a reconcile result. A reconcile that succeeded or failed
/// adds one; no other report of the loop does.
pub proof fn law_results_are_counted(first: Readiness, readiness: &mut Readiness, item: LoopItem)
    requires
        call_ensures(Readiness::new, (), first),
        call_ensures(Readiness::observed, (readiness, item), ()),
    ensures
        first@ == 0,
        match item {
            LoopItem::Reconciled => final(readiness)@ == old(readiness)@ + 1,
            LoopItem::ReconcilerFailed => final(readiness)@ == old(readiness)@ + 1,
            LoopItem::ObjectNotFound => final(readiness)@ == old(readiness)@,
            LoopItem::QueueError => final(readiness)@ == old(readiness)@,
            LoopItem::RunnerError => final(readiness)@ == old(readiness)@,
        },
{
}

} // verus!

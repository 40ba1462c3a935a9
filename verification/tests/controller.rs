use std::future::Future;
use std::sync::Arc;
use std::time::Duration;

use http::{Request, Response};
use k8s_openapi::jiff::Timestamp;
use kube::client::Body;
use kube::error::Status;
use kube::Client;
use tower_test::mock;

use koprs::controller::election::LeaderElectionConfig;
use koprs::controller::{
    acquire_leader_lease, build_lease, conclude_reconcile, try_acquire_or_renew, watcher,
    AcquireAction, AcquireEvent, Action, ApiFailure, Context, ControllerBuilder, HealthResponse,
    Lease, LeaseAction, LeaseEvent, LeaseRenewal, LeaseSpec, LoopItem, Measurement, ObjectMeta,
    Readiness, ReconcileEnd, Reconciler, RenewAction, RunAction, RunStep, StepEnd, StopReason,
};
use koprs::time::MicroTime;

// ---------------------------------------------------------------------------
// Harness
// ---------------------------------------------------------------------------

fn block_on<F: Future>(future: F) -> F::Output {
    tokio::runtime::Builder::new_current_thread().enable_all().build().unwrap().block_on(future)
}

type MockHandle = mock::Handle<Request<Body>, Response<Body>>;

fn mock_client() -> (Client, MockHandle) {
    let (svc, handle) = mock::pair::<Request<Body>, Response<Body>>();
    (Client::new(svc, "default"), handle)
}

type ConfigMap = k8s_openapi::api::core::v1::ConfigMap;
type Controller = kube_runtime::Controller<ConfigMap>;
type Watch = Box<dyn FnOnce(Controller) -> Controller + Send>;
type Builder = ControllerBuilder<ConfigMap, Watch>;

fn builder() -> Builder {
    block_on(async {
        let (client, _) = mock_client();
        ControllerBuilder::new(kube::Api::<ConfigMap>::namespaced(client, "ns"))
    })
}

fn configmap(name: &str, namespace: &str) -> ConfigMap {
    let mut cm = ConfigMap::default();
    cm.metadata.name = Some(name.to_string());
    cm.metadata.namespace = Some(namespace.to_string());
    cm
}

fn now_micro() -> MicroTime {
    MicroTime::from_nanosecond(Timestamp::now().as_nanosecond()).unwrap()
}

fn at(seconds: i128) -> MicroTime {
    MicroTime::from_nanosecond(seconds * 1_000_000_000).unwrap()
}

fn test_le_config(identity: &str) -> LeaderElectionConfig {
    LeaderElectionConfig {
        namespace: "test-ns".to_string(),
        name: "test-lease".to_string(),
        identity: identity.to_string(),
        lease_duration_secs: 15,
        renew_period: Duration::from_millis(50),
        retry_period: Duration::from_millis(50),
    }
}

/// The instant of every attempt below.
const NOW: i128 = 1_700_000_000;

/// A Lease renewed `renew_offset_secs` from now: negative means in the past.
fn lease(
    holder: &str,
    lease_duration_secs: i32,
    renew_offset_secs: i128,
    resource_version: &str,
) -> Lease {
    let renew_time = at(NOW + renew_offset_secs);
    Lease {
        metadata: ObjectMeta {
            name: Some("test-lease".to_string()),
            namespace: Some("test-ns".to_string()),
            resource_version: Some(resource_version.to_string()),
        },
        spec: Some(LeaseSpec {
            holder_identity: Some(holder.to_string()),
            lease_duration_seconds: Some(lease_duration_secs),
            acquire_time: Some(renew_time),
            renew_time: Some(renew_time),
            lease_transitions: Some(0),
        }),
    }
}

fn status_response(code: u16, reason: &str) -> ApiFailure<kube::Error> {
    let mut status = Status::failure("", reason);
    status.code = code;
    ApiFailure { code: Some(code), error: kube::Error::Api(status.boxed()) }
}

/// What an attempt asked of the API server.
#[derive(Debug)]
enum Asked {
    Get(String, String),
    Post(String, Lease),
    Put(String, String, Lease),
}

/// Plays an attempt through with these replies.
fn attempt(
    config: &LeaderElectionConfig,
    read: Result<Lease, ApiFailure<kube::Error>>,
    write: Option<Result<(), ApiFailure<kube::Error>>>,
) -> (Vec<Asked>, Result<bool, kube::Error>) {
    let mut asked = Vec::new();
    let mut read = Some(read);
    let mut write = write;
    let mut event = LeaseEvent::Started;
    loop {
        match try_acquire_or_renew(config, at(NOW), event) {
            LeaseAction::Get { namespace, name } => {
                asked.push(Asked::Get(namespace, name));
                event = LeaseEvent::Fetched(read.take().expect("a second read"));
            }
            LeaseAction::Create { namespace, lease } => {
                asked.push(Asked::Post(namespace, lease));
                event = LeaseEvent::Written(write.take().expect("a write too many"));
            }
            LeaseAction::Replace { namespace, name, lease } => {
                asked.push(Asked::Put(namespace, name, lease));
                event = LeaseEvent::Written(write.take().expect("a write too many"));
            }
            LeaseAction::Finish(result) => {
                assert!(read.is_none(), "no read");
                assert!(write.is_none(), "no write");
                return (asked, result);
            }
        }
    }
}

fn holder(lease: &Lease) -> Option<&str> {
    lease.spec.as_ref().and_then(|s| s.holder_identity.as_deref())
}

fn transitions(lease: &Lease) -> Option<i32> {
    lease.spec.as_ref().and_then(|s| s.lease_transitions)
}

// ---------------------------------------------------------------------------
// Context
// ---------------------------------------------------------------------------

#[test]
fn context_new_data_is_unit() {
    block_on(async {
        let (client, _) = mock_client();
        let ctx = Context::new(client);
        assert_eq!(ctx.data, ());
    });
}

#[test]
fn context_with_data_stores_value() {
    block_on(async {
        let (client, _) = mock_client();
        let ctx = Context::with_data(client, 42u32);
        assert_eq!(ctx.data, 42u32);
    });
}

#[test]
fn context_with_data_string() {
    block_on(async {
        let (client, _) = mock_client();
        let ctx = Context::with_data(client, "hello".to_string());
        assert_eq!(ctx.data, "hello");
    });
}

#[test]
fn context_client_is_accessible() {
    block_on(async {
        let (client, _) = mock_client();
        let ctx = Context::new(client.clone());
        let _ = ctx.client.clone();
        assert_eq!(ctx.client.default_namespace(), "default");
    });
}

// ---------------------------------------------------------------------------
// Reconciler
// ---------------------------------------------------------------------------

struct MockReconciler;

impl Reconciler<ConfigMap> for MockReconciler {
    type Error = String;
}

struct LoggingReconciler;

impl Reconciler<ConfigMap> for LoggingReconciler {
    type Error = String;

    fn error_policy(&self, _cr: Arc<ConfigMap>, _err: &String, _ctx: Arc<Context>) -> Action {
        Action::requeue(Duration::from_secs(60))
    }
}

#[test]
fn reconciler_default_error_policy_does_not_panic() {
    block_on(async {
        let (client, _) = mock_client();
        let ctx = Context::new(client);
        let err = "oops".to_string();
        let action = MockReconciler.error_policy(Arc::new(configmap("t", "ns")), &err, ctx);
        assert_eq!(action, Action::requeue(Duration::from_secs(30)));
    });
}

#[test]
fn reconciler_custom_error_policy_is_called() {
    block_on(async {
        let (client, _) = mock_client();
        let ctx = Context::new(client);
        let err = "oops".to_string();
        let action = LoggingReconciler.error_policy(Arc::new(configmap("t", "ns")), &err, ctx);
        assert_eq!(action, Action::requeue(Duration::from_secs(60)));
    });
}

#[test]
fn reconcile_that_returns_is_passed_on() {
    let end = ReconcileEnd::<String>::Returned(Ok(Action::await_change()));
    let outcome = conclude_reconcile(Some(Duration::from_secs(300)), true, end);
    assert_eq!(outcome.result, Ok(Action::await_change()));
    assert_eq!(outcome.measurement, Some(Measurement::Success));

    let end = ReconcileEnd::Returned(Err("oops".to_string()));
    let outcome = conclude_reconcile(None, true, end);
    assert_eq!(outcome.result, Err("oops".to_string()));
    assert_eq!(outcome.measurement, Some(Measurement::Failure));
}

#[test]
fn reconcile_that_times_out_is_requeued_after_the_timeout() {
    let timeout = Duration::from_millis(1500);
    let outcome = conclude_reconcile(Some(timeout), true, ReconcileEnd::<String>::TimedOut);
    assert_eq!(outcome.result, Ok(Action::requeue(timeout)));
    assert_ne!(outcome.result, Ok(Action::await_change()));
    assert_eq!(outcome.measurement, Some(Measurement::Success));
}

#[test]
fn reconcile_is_not_measured_without_metrics() {
    let end = ReconcileEnd::Returned(Err("oops".to_string()));
    assert_eq!(conclude_reconcile(None, false, end).measurement, None);
    let end = ReconcileEnd::<String>::Returned(Ok(Action::await_change()));
    assert_eq!(conclude_reconcile(None, false, end).measurement, None);
}

// ---------------------------------------------------------------------------
// Health probes
// ---------------------------------------------------------------------------

/// The first line of the reply, as it goes over the wire.
fn status_line(response: HealthResponse) -> String {
    format!("HTTP/1.1 {}", hyper::StatusCode::from_u16(response.status).unwrap())
}

#[test]
fn health_server_healthz_returns_200() {
    let resp = Readiness::new().respond("/healthz");
    assert!(status_line(resp).starts_with("HTTP/1.1 200 OK"));
    assert_eq!(resp.body, "ok");
    assert_eq!(resp.content_type, "text/plain");
}

#[test]
fn health_server_readyz_returns_503_when_not_ready() {
    let resp = Readiness::new().respond("/readyz");
    assert!(status_line(resp).starts_with("HTTP/1.1 503"));
    assert_eq!(resp.body, "not ready");
    assert_eq!(resp.content_type, "text/plain");
}

#[test]
fn health_server_readyz_returns_200_when_ready() {
    let mut ready = Readiness::new();
    ready.observed(LoopItem::Reconciled);
    let resp = ready.respond("/readyz");
    assert!(status_line(resp).starts_with("HTTP/1.1 200 OK"));
    assert_eq!(resp.body, "ok");
}

#[test]
fn only_a_reconcile_result_makes_ready() {
    for item in [LoopItem::ObjectNotFound, LoopItem::QueueError, LoopItem::RunnerError] {
        let mut ready = Readiness::new();
        ready.observed(item);
        assert_eq!(ready.respond("/readyz").status, 503);
        ready.observed(LoopItem::ReconcilerFailed);
        assert_eq!(ready.respond("/readyz").status, 200);
        ready.observed(item);
        assert_eq!(ready.respond("/readyz").status, 200);
    }
}

#[test]
fn health_server_unknown_path_returns_200() {
    let resp = Readiness::new().respond("/metrics");
    assert!(status_line(resp).starts_with("HTTP/1.1 200 OK"));
}

#[test]
fn health_server_readyz_transitions_503_to_200_after_ready() {
    let mut ready = Readiness::new();
    assert!(status_line(ready.respond("/readyz")).starts_with("HTTP/1.1 503"));
    ready.observed(LoopItem::Reconciled);
    assert!(status_line(ready.respond("/readyz")).starts_with("HTTP/1.1 200 OK"));
    ready.observed(LoopItem::Reconciled);
    assert!(status_line(ready.respond("/readyz")).starts_with("HTTP/1.1 200 OK"));
}

#[test]
fn health_server_healthz_returns_200_regardless_of_ready_flag() {
    let mut ready = Readiness::new();
    assert!(status_line(ready.respond("/healthz")).starts_with("HTTP/1.1 200 OK"));
    ready.observed(LoopItem::Reconciled);
    assert!(status_line(ready.respond("/healthz")).starts_with("HTTP/1.1 200 OK"));
}

// ---------------------------------------------------------------------------
// build_lease
// ---------------------------------------------------------------------------

#[test]
fn build_lease_sets_name_and_namespace() {
    let lease =
        build_lease("my-lease", "my-ns", "pod-1", 15, now_micro(), now_micro(), None, None);
    assert_eq!(lease.metadata.name.as_deref(), Some("my-lease"));
    assert_eq!(lease.metadata.namespace.as_deref(), Some("my-ns"));
}

#[test]
fn build_lease_sets_holder_identity() {
    let lease = build_lease("l", "ns", "pod-42", 15, now_micro(), now_micro(), None, None);
    let holder = lease.spec.as_ref().and_then(|s| s.holder_identity.as_deref());
    assert_eq!(holder, Some("pod-42"));
}

#[test]
fn build_lease_sets_lease_duration() {
    let lease = build_lease("l", "ns", "pod-1", 30, now_micro(), now_micro(), None, None);
    let dur = lease.spec.as_ref().and_then(|s| s.lease_duration_seconds);
    assert_eq!(dur, Some(30));
}

#[test]
fn build_lease_sets_resource_version_when_provided() {
    let lease = build_lease(
        "l",
        "ns",
        "pod-1",
        15,
        now_micro(),
        now_micro(),
        Some("42".to_string()),
        None,
    );
    assert_eq!(lease.metadata.resource_version.as_deref(), Some("42"));
}

#[test]
fn build_lease_omits_resource_version_when_none() {
    let lease = build_lease("l", "ns", "pod-1", 15, now_micro(), now_micro(), None, None);
    assert!(lease.metadata.resource_version.is_none());
}

#[test]
fn build_lease_sets_transitions_when_provided() {
    let lease = build_lease("l", "ns", "pod-1", 15, now_micro(), now_micro(), None, Some(3));
    let t = lease.spec.as_ref().and_then(|s| s.lease_transitions);
    assert_eq!(t, Some(3));
}

#[test]
fn build_lease_new_lease_gets_zero_transitions() {
    let lease = build_lease("l", "ns", "pod-1", 15, now_micro(), now_micro(), None, Some(0));
    let t = lease.spec.as_ref().and_then(|s| s.lease_transitions);
    assert_eq!(t, Some(0));
}

#[test]
fn build_lease_keeps_acquire_and_renew_time_apart() {
    let lease = build_lease("l", "ns", "pod-1", 15, at(1), at(2), None, None);
    let spec = lease.spec.as_ref().unwrap();
    assert_eq!(spec.acquire_time, Some(at(1)));
    assert_eq!(spec.renew_time, Some(at(2)));
}

// ---------------------------------------------------------------------------
// try_acquire_or_renew
// ---------------------------------------------------------------------------

#[test]
fn acquire_creates_new_lease_when_none_exists() {
    let config = test_le_config("pod-1");
    let (asked, result) =
        attempt(&config, Err(status_response(404, "NotFound")), Some(Ok(())));
    assert_eq!(asked.len(), 2);
    let Asked::Get(namespace, name) = &asked[0] else { panic!("{:?}", asked[0]) };
    assert_eq!(namespace, "test-ns");
    assert_eq!(name, "test-lease");
    let Asked::Post(namespace, lease) = &asked[1] else { panic!("{:?}", asked[1]) };
    assert_eq!(namespace, "test-ns");
    assert_eq!(holder(lease), Some("pod-1"));
    assert_eq!(transitions(lease), Some(0));
    assert_eq!(lease.metadata.resource_version, None);
    let spec = lease.spec.as_ref().unwrap();
    assert_eq!(spec.acquire_time, Some(at(NOW)));
    assert_eq!(spec.renew_time, Some(at(NOW)));
    assert_eq!(spec.lease_duration_seconds, Some(15));
    assert_eq!(result.unwrap(), true);
}

#[test]
fn acquire_returns_false_when_create_conflicts() {
    let config = test_le_config("pod-1");
    let (asked, result) = attempt(
        &config,
        Err(status_response(404, "NotFound")),
        Some(Err(status_response(409, "AlreadyExists"))),
    );
    assert!(matches!(asked[1], Asked::Post(..)));
    assert_eq!(result.unwrap(), false);
}

#[test]
fn acquire_returns_false_when_held_by_another_not_expired() {
    let config = test_le_config("pod-1");
    let (asked, result) = attempt(&config, Ok(lease("other-pod", 3600, -1, "5")), None);
    assert_eq!(asked.len(), 1);
    assert_eq!(result.unwrap(), false);
}

#[test]
fn acquire_takes_over_expired_lease_held_by_another() {
    let config = test_le_config("pod-1");
    let (asked, result) =
        attempt(&config, Ok(lease("other-pod", 15, -100, "5")), Some(Ok(())));
    let Asked::Put(namespace, name, lease) = &asked[1] else { panic!("{:?}", asked[1]) };
    assert_eq!(namespace, "test-ns");
    assert_eq!(name, "test-lease");
    assert_eq!(holder(lease), Some("pod-1"));
    assert_eq!(lease.metadata.resource_version.as_deref(), Some("5"));
    let spec = lease.spec.as_ref().unwrap();
    assert_eq!(spec.acquire_time, Some(at(NOW)));
    assert_eq!(spec.renew_time, Some(at(NOW)));
    assert_eq!(transitions(lease), Some(1));
    assert_eq!(result.unwrap(), true);
}

#[test]
fn renew_succeeds_when_we_already_hold_lease() {
    let config = test_le_config("pod-1");
    let (asked, result) = attempt(&config, Ok(lease("pod-1", 15, -3, "9")), Some(Ok(())));
    let Asked::Put(_, _, lease) = &asked[1] else { panic!("{:?}", asked[1]) };
    assert_eq!(holder(lease), Some("pod-1"));
    // acquireTime is preserved (not reset) for a renewal
    let spec = lease.spec.as_ref().unwrap();
    assert_eq!(spec.acquire_time, Some(at(NOW - 3)));
    assert_eq!(spec.renew_time, Some(at(NOW)));
    assert_eq!(transitions(lease), Some(0));
    assert_eq!(result.unwrap(), true);
}

#[test]
fn renew_returns_false_when_replace_conflicts() {
    let config = test_le_config("pod-1");
    let (asked, result) = attempt(
        &config,
        Ok(lease("pod-1", 15, -3, "9")),
        Some(Err(status_response(409, "Conflict"))),
    );
    assert!(matches!(asked[1], Asked::Put(..)));
    assert_eq!(result.unwrap(), false);
}

#[test]
fn acquire_propagates_api_error_on_get() {
    let config = test_le_config("pod-1");
    let (asked, result) = attempt(&config, Err(status_response(500, "InternalError")), None);
    assert_eq!(asked.len(), 1);
    assert!(matches!(result, Err(kube::Error::Api(s)) if s.code == 500));
}

#[test]
fn acquire_propagates_api_error_on_post() {
    let config = test_le_config("pod-1");
    let (_, result) = attempt(
        &config,
        Err(status_response(404, "NotFound")),
        Some(Err(status_response(500, "InternalError"))),
    );
    assert!(matches!(result, Err(kube::Error::Api(s)) if s.code == 500));
}

#[test]
fn acquire_propagates_an_error_without_a_status() {
    let config = test_le_config("pod-1");
    let failure =
        ApiFailure { code: None, error: kube::Error::LinesCodecMaxLineLengthExceeded };
    let (_, result) = attempt(&config, Err(failure), None);
    assert!(matches!(result, Err(kube::Error::LinesCodecMaxLineLengthExceeded)));
}

#[test]
fn renew_propagates_a_not_found_on_put() {
    let config = test_le_config("pod-1");
    let (_, result) = attempt(
        &config,
        Ok(lease("pod-1", 15, -3, "9")),
        Some(Err(status_response(404, "NotFound"))),
    );
    assert!(matches!(result, Err(kube::Error::Api(s)) if s.code == 404));
}

#[test]
fn a_lease_stands_up_to_and_including_its_last_instant() {
    let config = test_le_config("pod-1");
    let (_, result) = attempt(&config, Ok(lease("other-pod", 15, -15, "5")), None);
    assert_eq!(result.unwrap(), false);

    let mut late = lease("other-pod", 15, -15, "5");
    let spec = late.spec.as_mut().unwrap();
    spec.renew_time =
        MicroTime::from_nanosecond((NOW - 15) * 1_000_000_000 - 1);
    let (asked, result) = attempt(&config, Ok(late), Some(Ok(())));
    assert_eq!(asked.len(), 2);
    assert_eq!(result.unwrap(), true);
}

#[test]
fn a_lease_without_duration_stands_as_long_as_ours() {
    let config = test_le_config("pod-1");
    let mut standing = lease("other-pod", 0, -15, "5");
    standing.spec.as_mut().unwrap().lease_duration_seconds = None;
    let (asked, _) = attempt(&config, Ok(standing), None);
    assert_eq!(asked.len(), 1);

    let mut expired = lease("other-pod", 0, -16, "5");
    expired.spec.as_mut().unwrap().lease_duration_seconds = None;
    let (asked, _) = attempt(&config, Ok(expired), Some(Ok(())));
    assert_eq!(asked.len(), 2);
}

#[test]
fn an_empty_lease_is_taken_over_without_a_count() {
    let config = test_le_config("pod-1");
    let empty = Lease {
        metadata: ObjectMeta { name: None, namespace: None, resource_version: None },
        spec: None,
    };
    let (asked, result) = attempt(&config, Ok(empty), Some(Ok(())));
    let Asked::Put(_, _, lease) = &asked[1] else { panic!("{:?}", asked[1]) };
    assert_eq!(holder(lease), Some("pod-1"));
    assert_eq!(transitions(lease), None);
    assert_eq!(lease.metadata.resource_version, None);
    assert_eq!(result.unwrap(), true);
}

#[test]
fn a_renewal_without_acquire_time_sets_it() {
    let config = test_le_config("pod-1");
    let mut ours = lease("pod-1", 15, -3, "9");
    ours.spec.as_mut().unwrap().acquire_time = None;
    let (asked, _) = attempt(&config, Ok(ours), Some(Ok(())));
    let Asked::Put(_, _, lease) = &asked[1] else { panic!("{:?}", asked[1]) };
    assert_eq!(lease.spec.as_ref().unwrap().acquire_time, Some(at(NOW)));
}

#[test]
fn our_own_expired_lease_is_renewed() {
    let config = test_le_config("pod-1");
    let (asked, result) = attempt(&config, Ok(lease("pod-1", 15, -100, "9")), Some(Ok(())));
    let Asked::Put(_, _, lease) = &asked[1] else { panic!("{:?}", asked[1]) };
    assert_eq!(lease.spec.as_ref().unwrap().acquire_time, Some(at(NOW - 100)));
    assert_eq!(transitions(lease), Some(0));
    assert_eq!(result.unwrap(), true);
}

#[test]
fn a_written_lease_excludes_others_and_is_renewed_by_its_holder() {
    let leader = test_le_config("pod-1");
    let other = test_le_config("pod-2");
    let written = |version: &str| {
        let (mut asked, _) = attempt(
            &leader,
            Err(status_response(404, "NotFound")),
            Some(Ok(())),
        );
        let Some(Asked::Post(_, mut lease)) = asked.pop() else { panic!("no lease") };
        lease.metadata.resource_version = Some(version.to_string());
        lease
    };

    let action = try_acquire_or_renew::<()>(
        &other,
        at(NOW + 15),
        LeaseEvent::Fetched(Ok(written("1"))),
    );
    assert!(matches!(action, LeaseAction::Finish(Ok(false))));

    let action = try_acquire_or_renew::<()>(
        &other,
        at(NOW + 16),
        LeaseEvent::Fetched(Ok(written("1"))),
    );
    let LeaseAction::Replace { lease, .. } = action else { panic!("{:?}", action) };
    assert_eq!(holder(&lease), Some("pod-2"));
    assert_eq!(transitions(&lease), Some(1));

    let action = try_acquire_or_renew::<()>(
        &leader,
        at(NOW + 16),
        LeaseEvent::Fetched(Ok(written("1"))),
    );
    let LeaseAction::Replace { lease, .. } = action else { panic!("{:?}", action) };
    assert_eq!(transitions(&lease), Some(0));
    assert_eq!(lease.spec.as_ref().unwrap().acquire_time, Some(at(NOW)));
    assert_eq!(lease.metadata.resource_version.as_deref(), Some("1"));
}

#[test]
fn a_stored_lease_stands_from_the_microsecond_in_which_it_was_written() {
    let leader = test_le_config("pod-1");
    let other = test_le_config("pod-2");
    let start: i128 = NOW * 1_000_000_000;
    let instant = |nanosecond: i128| MicroTime::from_nanosecond(start + nanosecond).unwrap();
    // Written 1_999 ns after the start, and read back without the fraction.
    let not_found = Err(status_response(404, "NotFound"));
    let action = try_acquire_or_renew(&leader, instant(1_999), LeaseEvent::Fetched(not_found));
    let LeaseAction::Create { lease, .. } = action else { panic!("{:?}", action) };
    assert_eq!(lease.spec.as_ref().unwrap().renew_time, Some(instant(1_999)));
    let stored = || {
        let secs = leader.lease_duration_secs;
        let time = instant(1_000);
        let version = Some("1".to_string());
        build_lease("test-lease", "test-ns", "pod-1", secs, time, time, version, Some(0))
    };

    let last = 15_000_001_000;
    let read = LeaseEvent::Fetched(Ok(stored()));
    let action = try_acquire_or_renew::<()>(&other, instant(last), read);
    assert!(matches!(action, LeaseAction::Finish(Ok(false))));

    let read = LeaseEvent::Fetched(Ok(stored()));
    let action = try_acquire_or_renew::<()>(&other, instant(last + 1), read);
    let LeaseAction::Replace { lease, .. } = action else { panic!("{:?}", action) };
    assert_eq!(holder(&lease), Some("pod-2"));

    let read = LeaseEvent::Fetched(Ok(stored()));
    let action = try_acquire_or_renew::<()>(&leader, instant(last + 1), read);
    let LeaseAction::Replace { lease, .. } = action else { panic!("{:?}", action) };
    assert_eq!(lease.spec.as_ref().unwrap().acquire_time, Some(instant(1_000)));
    assert_eq!(lease.spec.as_ref().unwrap().renew_time, Some(instant(last + 1)));
}

#[test]
fn a_lease_at_the_end_of_time_cannot_be_decided() {
    let config = test_le_config("pod-1");
    let mut late = lease("other-pod", 15, 0, "5");
    late.spec.as_mut().unwrap().renew_time =
        MicroTime::from_nanosecond(Timestamp::MAX.as_nanosecond());
    assert!(!config.can_decide(&late, at(NOW)));
    assert!(config.can_decide(&lease("other-pod", 15, 0, "5"), at(NOW)));
}

#[test]
fn a_full_count_of_transitions_can_be_renewed_but_not_taken_over() {
    let config = test_le_config("pod-1");
    let full = |holder: &str, offset: i128| {
        let mut full = lease(holder, 15, offset, "5");
        full.spec.as_mut().unwrap().lease_transitions = Some(i32::MAX);
        full
    };
    assert!(config.can_decide(&full("pod-1", -100), at(NOW)));
    assert!(config.can_decide(&full("other-pod", -1), at(NOW)));
    assert!(!config.can_decide(&full("other-pod", -100), at(NOW)));
}

// ---------------------------------------------------------------------------
// Acquisition and renewal
// ---------------------------------------------------------------------------

#[test]
fn acquisition_is_retried_until_it_succeeds() {
    let config = test_le_config("pod-1");
    let next = |event: AcquireEvent<()>| acquire_leader_lease(&config, &event, false);
    let retry = AcquireAction::WaitFor(Duration::from_millis(50));
    assert_eq!(next(AcquireEvent::Begun), AcquireAction::Attempt);
    assert_eq!(next(AcquireEvent::Attempted(Ok(false))), retry);
    assert_eq!(next(AcquireEvent::Attempted(Err(()))), retry);
    assert_eq!(next(AcquireEvent::Waited), AcquireAction::Attempt);
    assert_eq!(next(AcquireEvent::Attempted(Ok(true))), AcquireAction::Lead);
    assert!(retry.step_end::<()>().is_none());
    assert!(AcquireAction::Attempt.step_end::<()>().is_none());
    assert!(matches!(AcquireAction::Lead.step_end::<()>(), Some(StepEnd::Done)));
}

#[test]
fn a_stop_ends_the_wait_for_the_lease() {
    let config = test_le_config("pod-1");
    let events = [
        AcquireEvent::Begun,
        AcquireEvent::Attempted(Ok(false)),
        AcquireEvent::Attempted(Err(())),
        AcquireEvent::Attempted(Ok(true)),
        AcquireEvent::Waited,
    ];
    for event in &events {
        assert_eq!(acquire_leader_lease(&config, event, true), AcquireAction::Stop);
    }
    assert!(matches!(AcquireAction::Stop.step_end::<()>(), Some(StepEnd::Stopped)));
}

/// How a leader stops after these attempts, and after how many.
fn renew(results: &[Result<bool, ()>]) -> Option<(usize, StopReason)> {
    let config = test_le_config("pod-1");
    let mut action = LeaseRenewal::begin(&config);
    for (i, result) in results.iter().enumerate() {
        let RenewAction::RenewAfter(period, renewal) = action else { panic!("{:?}", action) };
        assert_eq!(period, Duration::from_millis(50));
        action = renewal.attempted(&config, result);
        if let RenewAction::Stop(reason) = action {
            return Some((i + 1, reason));
        }
    }
    None
}

#[test]
fn a_leader_stops_when_the_lease_is_taken() {
    let taken = renew(&[Ok(true), Err(()), Ok(false), Ok(true)]);
    assert_eq!(taken, Some((3, StopReason::LeaseTaken)));
}

#[test]
fn a_leader_stops_on_the_third_error_in_a_row() {
    let failed = renew(&[Ok(true), Err(()), Err(()), Err(()), Ok(true)]);
    assert_eq!(failed, Some((4, StopReason::RenewalFailed)));
}

#[test]
fn a_success_between_errors_keeps_a_leader() {
    assert_eq!(renew(&[Err(()), Err(()), Ok(true), Err(()), Err(()), Ok(true)]), None);
}

// ---------------------------------------------------------------------------
// ControllerBuilder
// ---------------------------------------------------------------------------

#[test]
fn builder_defaults_are_all_off() {
    let b = builder();
    assert_eq!(b.health_port, None);
    assert!(!b.graceful_shutdown);
    assert_eq!(b.reconcile_timeout, None);
    assert_eq!(b.metrics_port, None);
    assert!(b.configure.is_none());
    assert!(b.leader_election.is_none());
}

#[test]
fn builder_watches_by_the_defaults_of_the_runtime() {
    let ours = builder().watcher_config;
    let theirs = kube_runtime::watcher::Config::default();
    assert_eq!(ours.label_selector, theirs.label_selector);
    assert_eq!(ours.field_selector, theirs.field_selector);
    assert_eq!(ours.timeout, theirs.timeout);
    assert_eq!(ours.list_semantic, watcher::ListSemantic::MostRecent);
    assert_eq!(theirs.list_semantic, kube_runtime::watcher::ListSemantic::MostRecent);
    assert_eq!(ours.initial_list_strategy, watcher::InitialListStrategy::ListWatch);
    assert_eq!(
        theirs.initial_list_strategy,
        kube_runtime::watcher::InitialListStrategy::ListWatch
    );
    assert_eq!(ours.page_size, Some(500));
    assert_eq!(theirs.page_size, Some(500));
    assert!(ours.bookmarks && theirs.bookmarks);
}

#[test]
fn builder_health_port_sets_port() {
    assert_eq!(builder().health_port(9090).health_port, Some(9090));
}

#[test]
fn builder_metrics_port_sets_port() {
    assert_eq!(builder().metrics_port(9091).metrics_port, Some(9091));
}

#[test]
fn builder_graceful_shutdown_sets_flag() {
    assert!(builder().graceful_shutdown().graceful_shutdown);
}

#[test]
fn builder_reconcile_timeout_stores_duration() {
    let b = builder().reconcile_timeout(Duration::from_secs(60));
    assert_eq!(b.reconcile_timeout, Some(Duration::from_secs(60)));
}

#[test]
fn builder_label_selector_sets_watcher_config() {
    let b = builder().label_selector("app=test");
    assert_eq!(b.watcher_config.label_selector.as_deref(), Some("app=test"));
}

#[test]
fn builder_watcher_config_replaces_default() {
    let custom = watcher::Config::default().labels("env=prod");
    let b = builder().watcher_config(custom);
    assert_eq!(b.watcher_config.label_selector.as_deref(), Some("env=prod"));
}

#[test]
fn builder_with_watches_stores_configure_fn() {
    let b = builder().with_watches(Box::new(|ctl| ctl));
    assert!(b.configure.is_some());
}

#[test]
fn builder_with_watches_composes_not_replaces() {
    let b = builder().with_watches(Box::new(|ctl| ctl)).with_watches(Box::new(|ctl| ctl));
    assert!(b.configure.is_some());
}

/// A watch of ConfigMaps that requeues nothing.
fn trigger_watch() -> Watch {
    let trigger = block_on(async {
        let (client, _) = mock_client();
        kube::Api::<ConfigMap>::all(client)
    });
    Box::new(move |ctl| {
        ctl.watches(trigger, kube_runtime::watcher::Config::default(), |_: ConfigMap| {
            None::<kube_runtime::reflector::ObjectRef<ConfigMap>>
        })
    })
}

/// A watch of owned Deployments.
fn owned_watch() -> Watch {
    let deploy_api = block_on(async {
        let (client, _) = mock_client();
        kube::Api::<k8s_openapi::api::apps::v1::Deployment>::namespaced(client, "ns")
    });
    Box::new(move |ctl| ctl.owns(deploy_api, kube_runtime::watcher::Config::default()))
}

#[test]
fn builder_watch_registers_configure_fn() {
    let b = builder().watch(trigger_watch());
    assert!(b.configure.is_some());
}

#[test]
fn builder_watch_two_watches_both_compose() {
    let b = builder().watch(trigger_watch()).watch(trigger_watch());
    assert!(b.configure.is_some());
}

#[test]
fn builder_watch_and_with_watches_compose() {
    let b = builder().watch(trigger_watch()).with_watches(Box::new(|ctl| ctl));
    assert!(b.configure.is_some());
}

#[test]
fn builder_owns_registers_configure_fn() {
    let b = builder().owns(owned_watch());
    assert!(b.configure.is_some());
}

#[test]
fn builder_owns_composes_with_watch() {
    let b = builder().owns(owned_watch()).watch(trigger_watch());
    assert!(b.configure.is_some());
}

#[test]
fn builder_watches_are_all_added_the_last_one_first() {
    type Log = Vec<&'static str>;
    type Step = Box<dyn FnOnce(Log) -> Log>;
    fn step(name: &'static str) -> Step {
        Box::new(move |mut log: Log| {
            log.push(name);
            log
        })
    }
    let b: ControllerBuilder<ConfigMap, Step> = block_on(async {
        let (client, _) = mock_client();
        ControllerBuilder::new(kube::Api::namespaced(client, "ns"))
    });
    let b = b.owns(step("owned")).watch(step("mapped")).with_watches(step("custom"));
    assert_eq!(b.configure.unwrap().apply(vec!["start"]), ["start", "custom", "mapped", "owned"]);
}

#[test]
fn builder_leader_election_can_be_configured() {
    let b = builder().leader_election("my-ns".to_string(), "my-leader".to_string(), None, None);
    assert!(b.leader_election.is_some());
}

#[test]
fn builder_leader_election_namespace_and_name_are_stored() {
    let b = builder().leader_election("ops-ns".to_string(), "my-op-leader".to_string(), None, None);
    let le = b.leader_election.as_ref().unwrap();
    assert_eq!(le.namespace, "ops-ns");
    assert_eq!(le.name, "my-op-leader");
    assert_eq!(le.lease_duration_secs, 15);
    assert_eq!(le.renew_period, Duration::from_secs(5));
    assert_eq!(le.retry_period, Duration::from_secs(2));
}

#[test]
fn builder_leader_election_identity_defaults_to_env() {
    let identity = |pod: Option<&str>, host: Option<&str>| {
        let b = builder().leader_election(
            "ns".to_string(),
            "lease".to_string(),
            pod.map(|s| s.to_string()),
            host.map(|s| s.to_string()),
        );
        b.leader_election.unwrap().identity
    };
    assert!(!identity(None, None).is_empty());
    assert_eq!(identity(Some("pod-1"), Some("host-1")), "pod-1");
    assert_eq!(identity(None, Some("host-1")), "host-1");
    assert_eq!(identity(None, None), "unknown");
    for pod in [None, Some(""), Some("pod-1")] {
        for host in [None, Some(""), Some("host-1")] {
            assert!(!identity(pod, host).is_empty());
        }
    }
    assert_eq!(identity(Some(""), Some("host-1")), "host-1");
    assert_eq!(identity(Some(""), Some("")), "unknown");
    assert_eq!(identity(Some(""), None), "unknown");
    assert_eq!(identity(None, Some("")), "unknown");
    assert_eq!(identity(Some("pod-1"), Some("")), "pod-1");
}

#[test]
fn builder_full_chain_does_not_panic() {
    let b = builder()
        .health_port(8080)
        .graceful_shutdown()
        .leader_election("my-ns".to_string(), "leader".to_string(), None, None)
        .reconcile_timeout(Duration::from_secs(300))
        .label_selector("app=test")
        .watcher_config(watcher::Config::default())
        .watch(trigger_watch())
        .with_watches(Box::new(|ctl| ctl));
    assert_eq!(b.health_port, Some(8080));
    assert_eq!(b.watcher_config.label_selector, None);
}

#[test]
fn builder_concurrency_defaults_to_none() {
    assert_eq!(builder().concurrency, None);
}

#[test]
fn builder_concurrency_stores_value() {
    assert_eq!(builder().concurrency(4).concurrency, Some(4));
}

#[test]
fn builder_concurrency_last_call_wins() {
    assert_eq!(builder().concurrency(4).concurrency(8).concurrency, Some(8));
}

#[test]
fn builder_leader_election_timings_overrides_defaults() {
    let b = builder()
        .leader_election("ops-ns".to_string(), "my-op-leader".to_string(), None, None)
        .leader_election_timings(
            Duration::from_secs(45),
            Duration::from_secs(10),
            Duration::from_secs(3),
        );
    let le = b.leader_election.as_ref().unwrap();
    assert_eq!(le.lease_duration_secs, 45);
    assert_eq!(le.renew_period, Duration::from_secs(10));
    assert_eq!(le.retry_period, Duration::from_secs(3));
    assert_eq!(le.namespace, "ops-ns");
}

#[test]
fn builder_leader_election_timings_drop_fractions_and_are_cut_to_the_longest() {
    let timed = |duration: Duration| {
        let b = builder()
            .leader_election("ns".to_string(), "lease".to_string(), None, None)
            .leader_election_timings(duration, Duration::from_secs(1), Duration::from_secs(1));
        b.leader_election.unwrap().lease_duration_secs
    };
    assert_eq!(timed(Duration::from_millis(45_999)), 45);
    assert_eq!(timed(Duration::from_secs(0x7fff_ffff)), i32::MAX);
    assert_eq!(timed(Duration::from_secs(0x8000_0000)), i32::MAX);
    assert_eq!(timed(Duration::from_secs(0x1_0000_0007)), i32::MAX);
    assert_eq!(timed(Duration::from_secs(u64::MAX)), i32::MAX);
}

#[test]
#[should_panic(expected = "leader_election_timings must be called after leader_election")]
fn builder_leader_election_timings_panics_when_no_leader_election() {
    let _ = builder().leader_election_timings(
        Duration::from_secs(45),
        Duration::from_secs(10),
        Duration::from_secs(3),
    );
}

// ---------------------------------------------------------------------------
// Runs
// ---------------------------------------------------------------------------

/// The steps that a run takes whose steps end so, and how it ends.
fn steps_ending(
    b: &Builder,
    end: impl Fn(usize, RunStep) -> StepEnd<usize>,
) -> (Vec<RunStep>, Result<(), usize>) {
    let mut run = b.run();
    let mut steps = Vec::new();
    let mut last = StepEnd::Done;
    loop {
        match run.advance(last) {
            RunAction::Perform(step) => {
                last = end(steps.len(), step);
                steps.push(step);
            }
            RunAction::Finish(result) => return (steps, result),
        }
    }
}

/// The steps that a run takes whose step at `failing` fails, and how it ends.
fn steps(b: &Builder, failing: Option<usize>) -> (Vec<RunStep>, Result<(), usize>) {
    steps_ending(b, |i, _| if failing == Some(i) { StepEnd::Failed(i) } else { StepEnd::Done })
}

#[test]
fn a_stop_while_the_lease_is_sought_ends_the_run_well() {
    let b = builder()
        .health_port(8080)
        .graceful_shutdown()
        .leader_election("ns".to_string(), "lease".to_string(), None, None);
    let wait_end = || {
        let config = test_le_config("pod-1");
        let action = acquire_leader_lease::<()>(&config, &AcquireEvent::Waited, true);
        action.step_end().unwrap()
    };
    let (steps, result) = steps_ending(&b, |_, step| {
        if step == RunStep::AcquireLease { wait_end() } else { StepEnd::Done }
    });
    assert_eq!(
        steps,
        [RunStep::ServeHealth(8080), RunStep::ListenForShutdown, RunStep::AcquireLease]
    );
    assert_eq!(result, Ok(()));
}

#[test]
fn a_run_that_has_ended_takes_no_further_step() {
    let mut run = builder().run();
    assert!(matches!(run.advance::<()>(StepEnd::Stopped), RunAction::Finish(Ok(()))));
    assert!(matches!(run.advance::<()>(StepEnd::Done), RunAction::Finish(Ok(()))));
}

#[test]
fn a_plain_run_only_reconciles() {
    let (steps, result) = steps(&builder(), None);
    assert_eq!(steps, [RunStep::BuildController(None), RunStep::RunLoop]);
    assert_eq!(result, Ok(()));
}

#[test]
fn a_full_run_takes_its_steps_in_order() {
    let b = builder()
        .leader_election("ns".to_string(), "lease".to_string(), None, None)
        .graceful_shutdown()
        .concurrency(4)
        .metrics_port(9090)
        .health_port(8080);
    let (steps, result) = steps(&b, None);
    assert_eq!(
        steps,
        [
            RunStep::ServeHealth(8080),
            RunStep::RegisterMetrics,
            RunStep::ServeMetrics(9090),
            RunStep::ListenForShutdown,
            RunStep::AcquireLease,
            RunStep::RenewLease,
            RunStep::BuildController(Some(4)),
            RunStep::RunLoopUntilStopped,
        ]
    );
    assert_eq!(result, Ok(()));
}

#[test]
fn a_run_can_be_stopped_with_graceful_shutdown_or_leader_election_alone() {
    let (shutdown, _) = steps(&builder().graceful_shutdown(), None);
    assert_eq!(shutdown.last(), Some(&RunStep::RunLoopUntilStopped));
    let b = builder().leader_election("ns".to_string(), "lease".to_string(), None, None);
    let (election, _) = steps(&b, None);
    assert_eq!(election.last(), Some(&RunStep::RunLoopUntilStopped));
}

#[test]
fn a_port_in_use_ends_the_run_before_the_loop() {
    let b = builder().health_port(8080).metrics_port(9090);
    let (health, result) = steps(&b, Some(0));
    assert_eq!(health, [RunStep::ServeHealth(8080)]);
    assert_eq!(result, Err(0));
    let (metrics, result) = steps(&b, Some(2));
    assert_eq!(
        metrics,
        [RunStep::ServeHealth(8080), RunStep::RegisterMetrics, RunStep::ServeMetrics(9090)]
    );
    assert_eq!(result, Err(2));
}

// ---------------------------------------------------------------------------
// LeaderElectionConfig
// ---------------------------------------------------------------------------

#[test]
fn le_config_defaults_are_sensible() {
    let cfg = test_le_config("pod-a");
    assert_eq!(cfg.lease_duration_secs, 15);
    // renew_period < lease_duration (3x safety margin)
    assert!(cfg.renew_period.as_secs_f64() < cfg.lease_duration_secs as f64 / 2.0);
}

//! Kubernetes Event recording.
//!
//! Builds the `events.k8s.io/v1` Events that are recorded against a resource, so
//! that `kubectl describe` shows operator activity under the **Events** section.

use crate::text;
use crate::time::MicroTime;
use vstd::prelude::*;
use vstd::string::*;

verus! {

/// Kubernetes event severity.
///
/// `Normal` is for routine operator activity; `Warning` is for degraded or
/// unexpected conditions.
#[derive(Debug, Clone, Copy, PartialEq, Eq, Structural)]
pub enum EventType {
    /// Routine informational event (e.g. resource synced, deployment updated).
    Normal,
    /// Something unexpected occurred and the operator may not be able to
    /// proceed without intervention.
    Warning,
}

impl EventType {
    /// The value of the `type` field of an Event.
    pub open spec fn name(self) -> Seq<char> {
        match self {
            EventType::Normal => "Normal"@,
            EventType::Warning => "Warning"@,
        }
    }

    /// The value of the `type` field of an Event.
    pub fn as_str(self) -> (r: &'static str)
        ensures
            r@ == self.name(),
    {
        match self {
            EventType::Normal => "Normal",
            EventType::Warning => "Warning",
        }
    }
}

/// The lowercase hexadecimal digit of `n`.
pub open spec fn hex_digit(n: nat) -> char
    recommends
        n < 16,
{
    "0123456789abcdef"@[n as int]
}

/// `n` in lowercase hexadecimal, without leading zeros.
pub open spec fn hex(n: nat) -> Seq<char>
    decreases n,
{
    if n < 16 {
        seq![hex_digit(n)]
    } else {
        hex(n / 16).push(hex_digit(n % 16))
    }
}

/// The lowercase hexadecimal digit of `n`.
fn digit_str(n: u64) -> (r: &'static str)
    requires
        n < 16,
    ensures
        r@ == seq![hex_digit(n as nat)],
{
    let digits = "0123456789abcdef";
    proof {
        reveal_strlit("0123456789abcdef");
    }
    assert(digits.is_ascii());
    digits.substring_ascii(n as usize, n as usize + 1)
}

/// `prefix`, followed by `n` in lowercase hexadecimal.
fn append_hex(prefix: String, n: u64) -> (r: String)
    ensures
        r@ == prefix@ + hex(n as nat),
    decreases n,
{
    if n < 16 {
        prefix.concat(digit_str(n))
    } else {
        let r = append_hex(prefix, n / 16).concat(digit_str(n % 16));
        assert(r@ =~= prefix@ + hex(n as nat));
        r
    }
}

/// What is known of a resource from its metadata.
#[derive(Debug)]
pub struct ResourceMeta {
    pub name: Option<String>,
    pub namespace: Option<String>,
    pub uid: Option<String>,
    pub resource_version: Option<String>,
}

/// The resource that an Event is about.
#[derive(Debug)]
pub struct ObjectReference {
    pub api_version: Option<String>,
    pub kind: Option<String>,
    pub name: Option<String>,
    pub namespace: Option<String>,
    pub uid: Option<String>,
    pub resource_version: Option<String>,
}

/// The metadata of an Event.
#[derive(Debug)]
pub struct EventMeta {
    pub name: Option<String>,
    pub namespace: Option<String>,
}

/// An `events.k8s.io/v1` Event. What it does not hold is unset.
#[derive(Debug)]
pub struct Event {
    pub metadata: EventMeta,
    pub event_time: Option<MicroTime>,
    pub regarding: Option<ObjectReference>,
    pub action: Option<String>,
    pub reason: Option<String>,
    pub note: Option<String>,
    pub type_: Option<String>,
    pub reporting_controller: Option<String>,
    pub reporting_instance: Option<String>,
}

/// An Event that is to be created in a namespace.
#[derive(Debug)]
pub struct EventRequest {
    pub namespace: String,
    pub event: Event,
}

/// The namespace of an Event about a resource: that of the resource, or
/// `default` for one that is cluster-scoped.
pub open spec fn event_namespace(meta: ResourceMeta) -> Seq<char> {
    match meta.namespace {
        Some(namespace) => namespace@,
        None => "default"@,
    }
}

/// The low 64 bits of an instant.
pub open spec fn low_bits(nanosecond: int) -> nat {
    (nanosecond % 0x1_0000_0000_0000_0000) as nat
}

/// The name of an Event about a resource: that of the resource and the instant
/// of the Event.
pub open spec fn event_name(meta: ResourceMeta, now: int) -> Seq<char> {
    (match meta.name {
        Some(name) => name@,
        None => "unknown"@,
    }) + "."@ + hex(low_bits(now))
}

/// The name under which a replica reports: that of its pod, or else of its host.
pub open spec fn instance_of(pod_name: Option<String>, hostname: Option<String>) -> Seq<char> {
    match pod_name {
        Some(name) => name@,
        None => match hostname {
            Some(name) => name@,
            None => "unknown"@,
        },
    }
}

/// The name under which this replica reports, given what the environment says of
/// its pod and of its host.
fn reporting_instance(pod_name: Option<String>, hostname: Option<String>) -> (r: String)
    ensures
        r@ == instance_of(pod_name, hostname),
{
    match pod_name {
        Some(name) => name,
        None => match hostname {
            Some(name) => name,
            None => "unknown".to_string(),
        },
    }
}

/// Whether `reference` points at the resource with this metadata and type.
pub open spec fn refers_to(
    reference: ObjectReference,
    meta: ResourceMeta,
    api_version: String,
    kind: String,
) -> bool {
    &&& reference.api_version == Some(api_version)
    &&& reference.kind == Some(kind)
    &&& reference.name == meta.name
    &&& reference.namespace == meta.namespace
    &&& reference.uid == meta.uid
    &&& reference.resource_version == meta.resource_version
}

/// The Event that records at `now` what an operator did with a resource.
///
/// The resource is known by `meta`, `api_version` and `kind`. The Event is to be
/// created in its namespace, or in `default` for a cluster-scoped resource.
///
/// | Parameter | Kubernetes field | Guidance |
/// |---|---|---|
/// | `event_type` | `type` | `Normal` or `Warning` |
/// | `action` | `action` | what the operator did, e.g. `"Sync"` |
/// | `reason` | `reason` | camelCase cause, e.g. `"Synced"`, `"Failed"` |
/// | `note` | `note` | human-readable sentence shown by `kubectl describe` |
/// | `reporting_controller` | `reportingController` | operator name, e.g. `"my-operator"` |
/// | `pod_name`, `hostname` | `reportingInstance` | under which this replica reports |
pub fn record_event(
    meta: ResourceMeta,
    api_version: String,
    kind: String,
    event_type: EventType,
    action: String,
    reason: String,
    note: String,
    reporting_controller: String,
    pod_name: Option<String>,
    hostname: Option<String>,
    now: MicroTime,
) -> (request: EventRequest)
    ensures
        request.namespace@ == event_namespace(meta),
        text::chars(request.event.metadata.namespace) == Some(event_namespace(meta)),
        text::chars(request.event.metadata.name) == Some(event_name(meta, now@)),
        request.event.event_time == Some(now),
        request.event.regarding matches Some(reference) && refers_to(
            reference,
            meta,
            api_version,
            kind,
        ),
        request.event.action == Some(action),
        request.event.reason == Some(reason),
        request.event.note == Some(note),
        text::chars(request.event.type_) == Some(event_type.name()),
        request.event.reporting_controller == Some(reporting_controller),
        text::chars(request.event.reporting_instance) == Some(
            instance_of(pod_name, hostname),
        ),
{
    let resource_name = match &meta.name {
        Some(name) => name.clone(),
        None => "unknown".to_string(),
    };
    let namespace = match &meta.namespace {
        Some(namespace) => namespace.clone(),
        None => "default".to_string(),
    };
    let nanosecond: i128 = now.as_nanosecond();
    #[verifier::truncate]
    let bits: u64 = nanosecond as u64;
    assert(nanosecond as u64 == nanosecond % 0x1_0000_0000_0000_0000i128) by (bit_vector);
    let name = append_hex(resource_name.concat("."), bits);
    let regarding = ObjectReference {
        api_version: Some(api_version),
        kind: Some(kind),
        name: meta.name,
        namespace: meta.namespace,
        uid: meta.uid,
        resource_version: meta.resource_version,
    };
    let event = Event {
        metadata: EventMeta { name: Some(name), namespace: Some(namespace.clone()) },
        event_time: Some(now),
        regarding: Some(regarding),
        action: Some(action),
        reason: Some(reason),
        note: Some(note),
        type_: Some(event_type.as_str().to_string()),
        reporting_controller: Some(reporting_controller),
        reporting_instance: Some(reporting_instance(pod_name, hostname)),
    };
    EventRequest { namespace, event }
}

/// Two Events about one resource have different names, unless their instants
/// agree in the low 64 bits.
pub proof fn law_event_names_differ(meta: ResourceMeta, earlier: int, later: int)
    requires
        low_bits(earlier) != low_bits(later),
    ensures
        event_name(meta, earlier) != event_name(meta, later),
{
    let prefix = (match meta.name {
        Some(name) => name@,
        None => "unknown"@,
    }) + "."@;
    let a = hex(low_bits(earlier));
    let b = hex(low_bits(later));
    if prefix + a == prefix + b {
        assert(a =~= (prefix + a).skip(prefix.len() as int));
        assert(b =~= (prefix + b).skip(prefix.len() as int));
        lemma_hex_injective(low_bits(earlier), low_bits(later));
    }
}

/// Different numbers have different hexadecimal forms.
proof fn lemma_hex_injective(a: nat, b: nat)
    requires
        hex(a) == hex(b),
    ensures
        a == b,
    decreases a,
{
    reveal_strlit("0123456789abcdef");
    lemma_hex_len(a);
    lemma_hex_len(b);
    assert(hex(a).last() == hex_digit(a % 16));
    assert(hex(b).last() == hex_digit(b % 16));
    if a >= 16 && b >= 16 {
        assert(hex(a).drop_last() =~= hex(a / 16));
        assert(hex(b).drop_last() =~= hex(b / 16));
        lemma_hex_injective(a / 16, b / 16);
    }
}

/// A number has one hexadecimal digit exactly if it is below sixteen, and never
/// none.
proof fn lemma_hex_len(n: nat)
    ensures
        hex(n).len() >= 1,
        hex(n).len() == 1 <==> n < 16,
    decreases n,
{
    if n >= 16 {
        lemma_hex_len(n / 16);
    }
}

/// The value of a lowercase hexadecimal digit, or a negative number for any other
/// character.
pub open spec fn digit_value(c: char) -> int {
    if '0' <= c && c <= '9' {
        c as int - '0' as int
    } else if 'a' <= c && c <= 'f' {
        c as int - 'a' as int + 10
    } else {
        -1
    }
}

/// The number that `digits` stand for, read from the left in base sixteen.
pub open spec fn hex_value(digits: Seq<char>) -> int
    decreases digits.len(),
{
    if digits.len() == 0 {
        0
    } else {
        hex_value(digits.drop_last()) * 16 + digit_value(digits.last())
    }
}

/// Whether `digits` are how `{:x}` writes `n`: lowercase hexadecimal digits that stand
/// for `n`, at least one, and no leading zero but for zero itself.
pub open spec fn writes_in_hex(digits: Seq<char>, n: int) -> bool {
    &&& digits.len() > 0
    &&& forall|i: int| 0 <= i < digits.len() ==> digit_value(#[trigger] digits[i]) >= 0
    &&& digits.len() > 1 ==> digits[0] != '0'
    &&& hex_value(digits) == n
}

/// The hexadecimal form of a number stands for that number.
pub proof fn law_hex_reads_back(n: nat)
    ensures
        writes_in_hex(hex(n), n as int),
    decreases n,
{
    reveal_strlit("0123456789abcdef");
    let digit = hex_digit(n % 16);
    assert(digit_value(digit) == n % 16);
    if n >= 16 {
        let higher = hex(n / 16);
        law_hex_reads_back(n / 16);
        assert(hex(n).drop_last() =~= higher);
        assert(hex(n)[0] == higher[0]);
        if higher.len() == 1 {
            assert(hex_value(higher.drop_last()) == 0);
        }
    } else {
        assert(hex_value(hex(n).drop_last()) == 0);
    }
}

/// The reference of an Event carries the resource's own name, namespace, uid and
/// resource version, be it namespaced or cluster-scoped, and the given API version
/// and kind.
pub proof fn law_event_refers_to_its_resource(
    meta: ResourceMeta,
    api_version: String,
    kind: String,
    event_type: EventType,
    action: String,
    reason: String,
    note: String,
    reporting_controller: String,
    pod_name: Option<String>,
    hostname: Option<String>,
    now: MicroTime,
    request: EventRequest,
)
    requires
        call_ensures(
            record_event,
            (
                meta,
                api_version,
                kind,
                event_type,
                action,
                reason,
                note,
                reporting_controller,
                pod_name,
                hostname,
                now,
            ),
            request,
        ),
    ensures
        request.event.regarding == Some(
            ObjectReference {
                api_version: Some(api_version),
                kind: Some(kind),
                name: meta.name,
                namespace: meta.namespace,
                uid: meta.uid,
                resource_version: meta.resource_version,
            },
        ),
{
}

/// Events about different resources carry different references: a reference tells
/// name, namespace, uid, resource version, API version and kind.
pub proof fn law_references_tell_resources_apart(
    meta: ResourceMeta,
    api_version: String,
    kind: String,
    other_meta: ResourceMeta,
    other_api_version: String,
    other_kind: String,
    event_type: EventType,
    action: String,
    reason: String,
    note: String,
    reporting_controller: String,
    pod_name: Option<String>,
    hostname: Option<String>,
    now: MicroTime,
    request: EventRequest,
    other_request: EventRequest,
)
    requires
        call_ensures(
            record_event,
            (
                meta,
                api_version,
                kind,
                event_type,
                action,
                reason,
                note,
                reporting_controller,
                pod_name,
                hostname,
                now,
            ),
            request,
        ),
        call_ensures(
            record_event,
            (
                other_meta,
                other_api_version,
                other_kind,
                event_type,
                action,
                reason,
                note,
                reporting_controller,
                pod_name,
                hostname,
                now,
            ),
            other_request,
        ),
        meta.name != other_meta.name || meta.namespace != other_meta.namespace || meta.uid
            != other_meta.uid || meta.resource_version != other_meta.resource_version || api_version
            != other_api_version || kind != other_kind,
    ensures
        request.event.regarding != other_request.event.regarding,
{
}

/// An Event is created in the namespace of its resource, or in `default`, and says so
/// itself. It is named after the resource and the instant, in hexadecimal.
pub proof fn law_event_is_placed_by_resource_and_instant(
    meta: ResourceMeta,
    api_version: String,
    kind: String,
    event_type: EventType,
    action: String,
    reason: String,
    note: String,
    reporting_controller: String,
    pod_name: Option<String>,
    hostname: Option<String>,
    now: MicroTime,
    request: EventRequest,
)
    requires
        call_ensures(
            record_event,
            (
                meta,
                api_version,
                kind,
                event_type,
                action,
                reason,
                note,
                reporting_controller,
                pod_name,
                hostname,
                now,
            ),
            request,
        ),
    ensures
        request.namespace@ == (match meta.namespace {
            Some(namespace) => namespace@,
            None => "default"@,
        }),
        request.event.metadata.namespace matches Some(namespace) && namespace@
            == request.namespace@,
        request.event.metadata.name matches Some(name) && exists|digits: Seq<char>|
            {
                &&& #[trigger] writes_in_hex(digits, now@ % 0x1_0000_0000_0000_0000)
                &&& name@ == (match meta.name {
                    Some(resource) => resource@,
                    None => "unknown"@,
                }) + "."@ + digits
            },
{
    law_hex_reads_back(low_bits(now@));
    assert(writes_in_hex(hex(low_bits(now@)), now@ % 0x1_0000_0000_0000_0000));
}

/// An Event carries what was recorded: each text in the field of its name, the
/// severity in words, the instant, and the replica by the name of its pod, or else of
/// its host.
pub proof fn law_event_carries_what_was_recorded(
    meta: ResourceMeta,
    api_version: String,
    kind: String,
    event_type: EventType,
    action: String,
    reason: String,
    note: String,
    reporting_controller: String,
    pod_name: Option<String>,
    hostname: Option<String>,
    now: MicroTime,
    request: EventRequest,
)
    requires
        call_ensures(
            record_event,
            (
                meta,
                api_version,
                kind,
                event_type,
                action,
                reason,
                note,
                reporting_controller,
                pod_name,
                hostname,
                now,
            ),
            request,
        ),
    ensures
        request.event.action == Some(action),
        request.event.reason == Some(reason),
        request.event.note == Some(note),
        request.event.reporting_controller == Some(reporting_controller),
        request.event.event_time == Some(now),
        request.event.type_ matches Some(name) && (event_type is Normal ==> name@ == "Normal"@) && (
        event_type is Warning ==> name@ == "Warning"@),
        request.event.reporting_instance matches Some(instance) && {
            &&& pod_name matches Some(pod) ==> instance@ == pod@
            &&& pod_name is None ==> (hostname matches Some(host) ==> instance@ == host@)
            &&& pod_name is None && hostname is None ==> instance@ == "unknown"@
        },
{
}

/// A severity is written as Kubernetes names it.
pub proof fn law_severity_is_written_by_name(event_type: EventType, name: &'static str)
    requires
        call_ensures(EventType::as_str, (event_type,), name),
    ensures
        event_type is Normal ==> name@ == "Normal"@,
        event_type is Warning ==> name@ == "Warning"@,
{
}

} // verus!

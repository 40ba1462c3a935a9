//! The Lease object that replicas compete for.

use crate::text;
use crate::time::MicroTime;
use vstd::prelude::*;

verus! {

/// The view of an optional instant.
pub open spec fn instant(t: Option<MicroTime>) -> Option<int> {
    match t {
        Some(t) => Some(t@),
        None => None,
    }
}

/// The metadata of a Lease.
#[derive(Debug)]
pub struct ObjectMeta {
    pub name: Option<String>,
    pub namespace: Option<String>,
    /// The version of the stored object that this one was read from. A write
    /// that carries it fails where the stored object has changed since.
    pub resource_version: Option<String>,
}

/// The state of a Lease.
#[derive(Debug)]
pub struct LeaseSpec {
    /// Who holds the lease.
    pub holder_identity: Option<String>,
    /// How long the lease stands without being renewed.
    pub lease_duration_seconds: Option<i32>,
    /// When the present holder acquired the lease.
    pub acquire_time: Option<MicroTime>,
    /// When the holder last renewed the lease.
    pub renew_time: Option<MicroTime>,
    /// How often the lease has changed hands.
    pub lease_transitions: Option<i32>,
}

/// A `coordination.k8s.io/v1` Lease.
#[derive(Debug)]
pub struct Lease {
    pub metadata: ObjectMeta,
    pub spec: Option<LeaseSpec>,
}

/// What a [`Lease`] holds. A Lease without a spec holds nothing in it.
#[verifier::ext_equal]
pub struct LeaseView {
    pub name: Option<Seq<char>>,
    pub namespace: Option<Seq<char>>,
    pub resource_version: Option<Seq<char>>,
    pub holder: Option<Seq<char>>,
    pub duration: Option<i32>,
    pub acquired: Option<int>,
    pub renewed: Option<int>,
    pub transitions: Option<i32>,
}

impl View for Lease {
    type V = LeaseView;

    open spec fn view(&self) -> LeaseView {
        LeaseView {
            name: text::chars(self.metadata.name),
            namespace: text::chars(self.metadata.namespace),
            resource_version: text::chars(self.metadata.resource_version),
            holder: match self.spec {
                Some(spec) => text::chars(spec.holder_identity),
                None => None,
            },
            duration: match self.spec {
                Some(spec) => spec.lease_duration_seconds,
                None => None,
            },
            acquired: match self.spec {
                Some(spec) => instant(spec.acquire_time),
                None => None,
            },
            renewed: match self.spec {
                Some(spec) => instant(spec.renew_time),
                None => None,
            },
            transitions: match self.spec {
                Some(spec) => spec.lease_transitions,
                None => None,
            },
        }
    }
}

/// A Lease that `identity` holds.
pub fn build_lease(
    name: &str,
    namespace: &str,
    identity: &str,
    lease_duration_secs: i32,
    acquire_time: MicroTime,
    renew_time: MicroTime,
    resource_version: Option<String>,
    lease_transitions: Option<i32>,
) -> (lease: Lease)
    ensures
        lease.spec is Some,
        lease@ == (LeaseView {
            name: Some(name@),
            namespace: Some(namespace@),
            resource_version: text::chars(resource_version),
            holder: Some(identity@),
            duration: Some(lease_duration_secs),
            acquired: Some(acquire_time@),
            renewed: Some(renew_time@),
            transitions: lease_transitions,
        }),
{
    Lease {
        metadata: ObjectMeta {
            name: Some(name.to_string()),
            namespace: Some(namespace.to_string()),
            resource_version,
        },
        spec: Some(
            LeaseSpec {
                holder_identity: Some(identity.to_string()),
                lease_duration_seconds: Some(lease_duration_secs),
                acquire_time: Some(acquire_time),
                renew_time: Some(renew_time),
                lease_transitions,
            },
        ),
    }
}

/// A Lease carries what it is built from, each in the field of its name.
pub proof fn law_lease_carries_what_it_is_built_from(
    name: &str,
    namespace: &str,
    identity: &str,
    lease_duration_secs: i32,
    acquire_time: MicroTime,
    renew_time: MicroTime,
    resource_version: Option<String>,
    lease_transitions: Option<i32>,
    lease: Lease,
)
    requires
        call_ensures(
            build_lease,
            (
                name,
                namespace,
                identity,
                lease_duration_secs,
                acquire_time,
                renew_time,
                resource_version,
                lease_transitions,
            ),
            lease,
        ),
    ensures
        lease.metadata.name matches Some(s) && s@ == name@,
        lease.metadata.namespace matches Some(s) && s@ == namespace@,
        match resource_version {
            Some(version) => lease.metadata.resource_version matches Some(s) && s@ == version@,
            None => lease.metadata.resource_version is None,
        },
        lease.spec matches Some(spec) && {
            &&& spec.holder_identity matches Some(holder) && holder@ == identity@
            &&& spec.lease_duration_seconds == Some(lease_duration_secs)
            &&& spec.acquire_time matches Some(t) && t@ == acquire_time@
            &&& spec.renew_time matches Some(t) && t@ == renew_time@
            &&& spec.lease_transitions == lease_transitions
        },
{
}

} // verus!

//! The name by which a replica competes for leadership.

use vstd::prelude::*;

verus! {

/// Whether the environment gives a name: one that is set and not empty.
pub open spec fn is_given(name: Option<String>) -> bool {
    name matches Some(name) && name@.len() > 0
}

/// The name by which a replica competes for leadership: that of its pod, or else
/// of its host, whichever the environment gives first.
pub open spec fn identity_of(pod_name: Option<String>, hostname: Option<String>) -> Seq<char> {
    if is_given(pod_name) {
        pod_name->0@
    } else if is_given(hostname) {
        hostname->0@
    } else {
        "unknown"@
    }
}

/// `name`, where the environment gives one.
fn given(name: Option<String>) -> (r: Option<String>)
    ensures
        r == (if is_given(name) {
            name
        } else {
            None
        }),
{
    match name {
        Some(name) => if name.as_str().unicode_len() > 0 {
            Some(name)
        } else {
            None
        },
        None => None,
    }
}

/// The name by which this replica competes for leadership, given what the
/// environment says of its pod and of its host. It is never empty: replicas
/// without a name could not be told apart from the holder of the Lease.
pub fn replica_identity(pod_name: Option<String>, hostname: Option<String>) -> (r: String)
    ensures
        r@ == identity_of(pod_name, hostname),
        r@.len() > 0,
{
    proof {
        reveal_strlit("unknown");
    }
    match given(pod_name) {
        Some(name) => name,
        None => match given(hostname) {
            Some(name) => name,
            None => "unknown".to_string(),
        },
    }
}

/// A replica competes under the name of its pod, whole and unchanged, where that
/// is set and not empty; or else under that of its host, likewise; or else as
/// `unknown`.
pub proof fn law_identity_is_a_name_as_it_is(
    pod_name: Option<String>,
    hostname: Option<String>,
    identity: String,
)
    requires
        call_ensures(replica_identity, (pod_name, hostname), identity),
    ensures
        identity@.len() > 0,
        match (pod_name, hostname) {
            (Some(pod), Some(host)) => {
                &&& pod@.len() > 0 ==> identity@ == pod@
                &&& pod@.len() == 0 && host@.len() > 0 ==> identity@ == host@
                &&& pod@.len() == 0 && host@.len() == 0 ==> identity@ == "unknown"@
            },
            (Some(pod), None) => {
                &&& pod@.len() > 0 ==> identity@ == pod@
                &&& pod@.len() == 0 ==> identity@ == "unknown"@
            },
            (None, Some(host)) => {
                &&& host@.len() > 0 ==> identity@ == host@
                &&& host@.len() == 0 ==> identity@ == "unknown"@
            },
            (None, None) => identity@ == "unknown"@,
        },
{
}

/// Two replicas whose pods have different names have different identities, whatever
/// their hosts are called. So have two without the name of a pod whose hosts have
/// different names.
pub proof fn law_replicas_are_told_apart(
    pod_name: Option<String>,
    hostname: Option<String>,
    identity: String,
    other_pod_name: Option<String>,
    other_hostname: Option<String>,
    other_identity: String,
)
    requires
        call_ensures(replica_identity, (pod_name, hostname), identity),
        call_ensures(replica_identity, (other_pod_name, other_hostname), other_identity),
    ensures
        pod_name matches Some(a) ==> other_pod_name matches Some(b) ==> a@.len() > 0 && b@.len() > 0
            && a@ != b@ ==> identity@ != other_identity@,
        pod_name is None && other_pod_name is None ==> (hostname matches Some(a) ==> (other_hostname
            matches Some(b) ==> (a@.len() > 0 && b@.len() > 0 && a@ != b@ ==> identity@
            != other_identity@))),
{
}

} // verus!

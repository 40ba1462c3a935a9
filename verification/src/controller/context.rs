//! What every reconcile call shares.

use std::sync::Arc;
use vstd::prelude::*;

verus! {

/// The Kubernetes client, which is carried through.
#[verifier::external_type_specification]
#[verifier::external_body]
pub struct ExClient(kube::Client);

/// Shared context passed to every reconcile and error-policy call.
///
/// Holds the Kubernetes client and any user-supplied data `T`. Use
/// [`Context::new`] where no extra state is needed, or [`Context::with_data`]
/// to attach configuration, metrics handles or other shared state.
pub struct Context<T = ()> {
    /// The Kubernetes API client.
    pub client: kube::Client,
    /// User-supplied data shared across all reconcile calls.
    pub data: T,
}

impl Context<()> {
    /// A context with a Kubernetes client and no extra data.
    pub fn new(client: kube::Client) -> (r: Arc<Self>)
        ensures
            r.client == client,
            r.data == (),
    {
        Arc::new(Self { client, data: () })
    }
}

impl<T> Context<T> {
    /// A context with a Kubernetes client and user-supplied data.
    pub fn with_data(client: kube::Client, data: T) -> (r: Arc<Self>)
        ensures
            r.client == client,
            r.data == data,
    {
        Arc::new(Self { client, data })
    }
}

/// A context carries the client and the data that it was made of.
pub proof fn law_context_carries_client_and_data<T>(
    client: kube::Client,
    data: T,
    bare: Arc<Context<()>>,
    with_data: Arc<Context<T>>,
)
    requires
        call_ensures(Context::<()>::new, (client,), bare),
        call_ensures(Context::<T>::with_data, (client, data), with_data),
    ensures
        bare.client == client,
        with_data.client == client,
        with_data.data == data,
{
}

} // verus!

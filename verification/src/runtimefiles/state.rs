//! What the handlers of the runtime-file endpoints share.

use std::sync::Arc;
use vstd::prelude::*;

verus! {

/// The update plugin, the lock states, and the delay after which a client may try
/// again while the storage is busy.
#[derive(Debug)]
pub struct RuntimeUpdateRouteState<P, L> {
    pub plugin: Arc<P>,
    pub vehicle_lock_states: Arc<L>,
    pub retry_after_seconds: u64,
}

/// Calls the `clone` of `Arc`: another handle to the same value.
#[verifier::external_body]
fn share<T>(shared: &Arc<T>) -> (r: Arc<T>)
    ensures
        r == *shared,
{
    Arc::clone(shared)
}

impl<P, L> Clone for RuntimeUpdateRouteState<P, L> {
    fn clone(&self) -> (r: Self)
        ensures
            r == *self,
    {
        RuntimeUpdateRouteState {
            plugin: share(&self.plugin),
            vehicle_lock_states: share(&self.vehicle_lock_states),
            retry_after_seconds: self.retry_after_seconds,
        }
    }
}

} // verus!

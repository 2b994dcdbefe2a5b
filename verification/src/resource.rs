//! The resource cache and its refresh protocol.
//!
//! A resource caches the outcome of one asynchronous fetch, keyed by the
//! last value its key selector produced. When the key changes the cache
//! invalidates, shows the loading fallback, and a new fetch is scheduled
//! for the new key. A fetch outcome is applied only if it is tagged with
//! the resource's current key: a stale in-flight fetch, once resolved, is
//! dropped by that comparison, never by cancelling the underlying call.
//! This gives the last-key-wins guarantee proved in
//! [`lemma_last_key_wins`].

use vstd::prelude::*;

use crate::server::ServerError;

verus! {

/// What a fetch hands back: the computed value, or a transport failure.
pub type FetchOutcome = Result<i32, ServerError>;

/// The visible state of a resource. While `Loading`, consumers render a
/// fallback view; otherwise they render the value or the error.
#[derive(Clone, Copy, PartialEq, Eq, Structural, Debug)]
pub enum FetchState {
    Loading,
    Ready(i32),
    Failed,
}

/// A cached (key, state) pair: the last-seen key and the pending, ready
/// or failed outcome of the fetch for that key.
#[derive(Clone, Copy, PartialEq, Eq, Structural, Debug)]
pub struct Resource {
    pub key: i64,
    pub state: FetchState,
}

/// The state a fetch outcome settles into.
pub open spec fn state_of_outcome(outcome: FetchOutcome) -> FetchState {
    match outcome {
        Ok(v) => FetchState::Ready(v),
        Err(_) => FetchState::Failed,
    }
}

/// The resource after its key selector produced `key`: unchanged if the
/// key is the one already cached, else invalidated and loading.
pub open spec fn spec_set_key(r: Resource, key: i64) -> Resource {
    if key == r.key {
        r
    } else {
        Resource { key, state: FetchState::Loading }
    }
}

/// The resource after the fetch for `key` resolved with `outcome`: the
/// outcome is displayed only if `key` is still the current key; a stale
/// outcome changes nothing.
pub open spec fn spec_resolve(r: Resource, key: i64, outcome: FetchOutcome) -> Resource {
    if key == r.key {
        Resource { key: r.key, state: state_of_outcome(outcome) }
    } else {
        r
    }
}

impl Resource {
    /// A fresh resource for `key`, with its first fetch in flight.
    pub fn init(key: i64) -> (r: Resource)
        ensures
            r.key == key,
            r.state is Loading,
    {
        Resource { key, state: FetchState::Loading }
    }

    /// The key selector produced `key`. Returns whether a new fetch must
    /// be scheduled: exactly when the key differs from the cached one.
    pub fn set_key(&mut self, key: i64) -> (refetch: bool)
        ensures
            *final(self) == spec_set_key(*old(self), key),
            refetch == (key != old(self).key),
    {
        if key != self.key {
            self.key = key;
            self.state = FetchState::Loading;
            true
        } else {
            false
        }
    }

    /// The fetch that was scheduled for `key` resolved with `outcome`.
    pub fn resolve(&mut self, key: i64, outcome: FetchOutcome)
        ensures
            *final(self) == spec_resolve(*old(self), key, outcome),
    {
        if key == self.key {
            self.state = match outcome {
                Ok(v) => FetchState::Ready(v),
                Err(_) => FetchState::Failed,
            };
        }
    }

    /// Whether consumers must render the loading fallback.
    pub fn is_loading(&self) -> (b: bool)
        ensures
            b == (self.state is Loading),
    {
        match self.state {
            FetchState::Loading => true,
            _ => false,
        }
    }
}

/// Last-key-wins. Once the key has moved to `k2`, the outcomes of the
/// superseded fetch for `k1` and of the current fetch for `k2` may arrive
/// in either order: both orders leave the same resource, and what it
/// displays is the outcome for `k2`, never the one for `k1`.
pub proof fn lemma_last_key_wins(
    r: Resource,
    k1: i64,
    k2: i64,
    o1: FetchOutcome,
    o2: FetchOutcome,
)
    requires
        r.key == k2,
        k1 != k2,
    ensures
        spec_resolve(spec_resolve(r, k1, o1), k2, o2) == spec_resolve(
            spec_resolve(r, k2, o2),
            k1,
            o1,
        ),
        spec_resolve(spec_resolve(r, k1, o1), k2, o2).state == state_of_outcome(o2),
{
}

/// A stale outcome is invisible: resolving under any key other than the
/// current one leaves the resource exactly as it was.
pub proof fn lemma_stale_outcome_dropped(r: Resource, key: i64, outcome: FetchOutcome)
    requires
        key != r.key,
    ensures
        spec_resolve(r, key, outcome) == r,
{
}

} // verus!

//! The multi-action and its version counter.
//!
//! A multi-action is a dispatchable operation; each dispatch bumps a
//! shared version counter by exactly one. The counter serves as the key
//! of a dependent resource, so every dispatch forces that resource to
//! re-fetch exactly once (proved at the page level, where the resource
//! is wired to the counter).

use vstd::prelude::*;

verus! {

/// A dispatch counter: starts at zero and grows by one per dispatch, so
/// it never repeats a value.
#[derive(Clone, Copy, PartialEq, Eq, Structural, Debug)]
pub struct MultiAction {
    pub version: i64,
}

impl MultiAction {
    /// A fresh action that has never been dispatched.
    pub fn new() -> (a: MultiAction)
        ensures
            a.version == 0,
    {
        MultiAction { version: 0 }
    }

    /// Dispatch once: the version grows by exactly one.
    pub fn dispatch(&mut self)
        requires
            old(self).version < i64::MAX,
        ensures
            final(self).version == old(self).version + 1,
    {
        self.version = self.version + 1;
    }

    /// The number of dispatches so far.
    pub fn version(&self) -> (v: i64)
        ensures
            v == self.version,
    {
        self.version
    }
}

} // verus!

//! Capability traits for typed context lookup.
//!
//! A request type resolves itself against a caller-supplied context value;
//! these traits let it ask that context for exactly the dictionaries it
//! needs. A label type names one value a context can hand out, and a
//! context implements [`Has`] once per label it supports.

use vstd::prelude::*;

verus! {

/// Names one typed value a context can provide.
pub trait ValueLabel {
    type Value;
}

/// A context able to hand out the value named by label `L`.
pub trait Has<L: ValueLabel> {
    /// The value this context holds under label `L`.
    spec fn spec_give(&self) -> L::Value;

    fn give(&self, label: L) -> (r: &L::Value)
        ensures
            *r == self.spec_give(),
    ;
}

/// Shorthand for values that may cross task boundaries: owned, sendable
/// and shareable.
pub trait Strict: 'static + Send + Sync + Sized {
}

impl<T: 'static + Send + Sync + Sized> Strict for T {
}

} // verus!

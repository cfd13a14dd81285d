//! The error surfaced by the circuit-store collaborator.  The store itself
//! (persistence and its query interface) is an external collaborator; only
//! its error crosses into this layer, where route handling wraps it without
//! losing the original diagnostic.

use vstd::prelude::*;

verus! {

/// A fault reported by the circuit store, described by its context line.
#[derive(Clone, Debug, PartialEq)]
pub struct CircuitStoreError {
    context: String,
}

impl View for CircuitStoreError {
    type V = Seq<char>;

    closed spec fn view(&self) -> Seq<char> {
        self.context@
    }
}

impl CircuitStoreError {
    /// A store fault carrying the given context line.
    pub fn new(context: String) -> (e: Self)
        ensures
            e@ == context@,
    {
        CircuitStoreError { context }
    }

    /// The rendered description, in place of the standard display trait.
    pub fn display_message(&self) -> (m: String)
        ensures
            m@ == self@,
    {
        self.context.clone()
    }
}

} // verus!

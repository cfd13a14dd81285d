//! The errors surfaced by the two route-handling collaborators: proposal
//! lookup and circuit lookup.  A "not found" is an expected outcome; an
//! internal or store fault is propagated with its original cause preserved
//! through the chain.

use vstd::prelude::*;

use crate::store::CircuitStoreError;

verus! {

/// Errors surfaced while handling a proposal-lookup route.
#[derive(Clone, Debug, PartialEq)]
pub enum ProposalRouteError {
    NotFound(String),
    InternalError(String),
}

impl ProposalRouteError {
    /// The underlying cause, mirroring the standard error interface:
    /// neither variant wraps another error.
    pub fn cause(&self) -> (c: Option<&CircuitStoreError>)
        ensures
            c is None,
    {
        match self {
            ProposalRouteError::NotFound(_) => None,
            ProposalRouteError::InternalError(_) => None,
        }
    }

    /// What the rendered description of each variant reads.
    pub open spec fn display_spec(&self) -> Seq<char> {
        match self {
            ProposalRouteError::NotFound(msg) => "Proposal not found: "@ + msg@,
            ProposalRouteError::InternalError(msg) => "Ran into internal error: "@ + msg@,
        }
    }

    /// The rendered description, in place of the standard display trait.
    pub fn display_message(&self) -> (m: String)
        ensures
            m@ == self.display_spec(),
    {
        match self {
            ProposalRouteError::NotFound(msg) => {
                let mut m = String::from_str("Proposal not found: ");
                m.append(msg.as_str());
                m
            },
            ProposalRouteError::InternalError(msg) => {
                let mut m = String::from_str("Ran into internal error: ");
                m.append(msg.as_str());
                m
            },
        }
    }
}

/// Errors surfaced while handling a circuit-lookup route.
#[derive(Clone, Debug, PartialEq)]
pub enum CircuitRouteError {
    NotFound(String),
    CircuitStoreError(CircuitStoreError),
}

/// The cause that the standard error interface reports for a circuit route
/// error: a wrapped store error is the cause, a plain "not found" has none.
pub open spec fn circuit_route_cause(e: CircuitRouteError) -> Option<CircuitStoreError> {
    match e {
        CircuitRouteError::NotFound(_) => None,
        CircuitRouteError::CircuitStoreError(inner) => Some(inner),
    }
}

impl CircuitRouteError {
    /// The underlying cause, mirroring the standard error interface: a
    /// wrapped store error is reported as the cause, unchanged, so the full
    /// diagnostic chain is preserved; a plain "not found" has no cause.
    pub fn cause(&self) -> (c: Option<&CircuitStoreError>)
        ensures
            *self matches CircuitRouteError::CircuitStoreError(inner) ==> (c matches Some(i) && *i
                == inner),
            *self matches CircuitRouteError::NotFound(_) ==> c is None,
            match c {
                Some(inner) => circuit_route_cause(*self) == Some(*inner),
                None => circuit_route_cause(*self) is None,
            },
    {
        match self {
            CircuitRouteError::NotFound(_) => None,
            CircuitRouteError::CircuitStoreError(err) => Some(err),
        }
    }

    /// What the rendered description of each variant reads: a wrapped store
    /// error renders as its own description, unchanged.
    pub open spec fn display_spec(&self) -> Seq<char> {
        match self {
            CircuitRouteError::NotFound(msg) => "Circuit not found: "@ + msg@,
            CircuitRouteError::CircuitStoreError(err) => err@,
        }
    }

    /// The rendered description, in place of the standard display trait.
    pub fn display_message(&self) -> (m: String)
        ensures
            m@ == self.display_spec(),
    {
        match self {
            CircuitRouteError::NotFound(msg) => {
                let mut m = String::from_str("Circuit not found: ");
                m.append(msg.as_str());
                m
            },
            CircuitRouteError::CircuitStoreError(err) => err.display_message(),
        }
    }
}

impl From<CircuitStoreError> for CircuitRouteError {
    fn from(err: CircuitStoreError) -> (r: Self) {
        CircuitRouteError::CircuitStoreError(err)
    }
}

impl vstd::std_specs::convert::FromSpecImpl<CircuitStoreError> for CircuitRouteError {
    open spec fn obeys_from_spec() -> bool {
        true
    }

    open spec fn from_spec(err: CircuitStoreError) -> Self {
        CircuitRouteError::CircuitStoreError(err)
    }
}

/// Error chaining: wrapping a store error into a circuit route error
/// preserves the original error, unchanged, as the reported cause.
pub proof fn lemma_store_error_cause_preserved(err: CircuitStoreError)
    ensures
        circuit_route_cause(
            <CircuitRouteError as vstd::std_specs::convert::FromSpec<
                CircuitStoreError,
            >>::from_spec(err),
        ) == Some(err),
{
}

} // verus!

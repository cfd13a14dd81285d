//! The wire form of a circuit-creation proposal: the structured message that
//! peer nodes exchange, with repeated sub-messages for the roster and the
//! members and one enumeration code per administrative field.  Every
//! enumeration reserves an "unset" code that no committed proposal may carry.
//!
//! Repeated fields hold their elements in a `protobuf::RepeatedField`, the
//! container that the protobuf runtime uses for repeated message fields.

use vstd::prelude::*;

use crate::messages::{NodeView, ServiceView, WireCircuitView};

verus! {

/// Wire code for the authorization scheme of a circuit.
#[derive(Clone, Copy, Debug, PartialEq, Eq)]
pub enum CircuitAuthorizationType {
    UnsetAuthorizationType,
    TrustAuthorization,
}

/// Wire code for the persistence level of a circuit.
#[derive(Clone, Copy, Debug, PartialEq, Eq)]
pub enum CircuitPersistenceType {
    UnsetPersistenceType,
    AnyPersistence,
}

/// Wire code for the routing behaviour of a circuit.
#[derive(Clone, Copy, Debug, PartialEq, Eq)]
pub enum CircuitRouteType {
    UnsetRouteType,
    AnyRoute,
}

#[verifier::external_type_specification]
#[verifier::external_body]
#[verifier::reject_recursive_types(T)]
pub struct ExRepeatedField<T>(protobuf::RepeatedField<T>);

/// A node entry of the wire message.
#[derive(Debug)]
pub struct SplinterNode {
    pub node_id: String,
    pub endpoint: String,
}

/// A service entry of the wire message.
#[derive(Debug)]
pub struct SplinterService {
    pub service_id: String,
    pub service_type: String,
    pub allowed_nodes: protobuf::RepeatedField<String>,
}

/// The circuit definition carried by a creation request.
#[derive(Debug)]
pub struct Circuit {
    pub circuit_id: String,
    pub roster: protobuf::RepeatedField<SplinterService>,
    pub members: protobuf::RepeatedField<SplinterNode>,
    pub authorization_type: CircuitAuthorizationType,
    pub persistence: CircuitPersistenceType,
    pub routes: CircuitRouteType,
    pub circuit_management_type: String,
    pub application_metadata: Vec<u8>,
}

/// The top-level wire message proposing a new circuit.
#[derive(Debug)]
pub struct CircuitCreateRequest {
    pub circuit: Circuit,
}

pub uninterp spec fn repeated_strings(r: protobuf::RepeatedField<String>) -> Seq<String>;

pub uninterp spec fn repeated_services(r: protobuf::RepeatedField<SplinterService>) -> Seq<SplinterService>;

pub uninterp spec fn repeated_nodes(r: protobuf::RepeatedField<SplinterNode>) -> Seq<SplinterNode>;

/// Relies on protobuf's `RepeatedField::from_vec`: the returned field holds
/// exactly the elements of the given vector, in order.
#[verifier::external_body]
pub(crate) fn strings_from_vec(v: Vec<String>) -> (r: protobuf::RepeatedField<String>)
    ensures
        repeated_strings(r) == v@,
{
    protobuf::RepeatedField::from_vec(v)
}

/// Relies on protobuf's `RepeatedField::into_vec`: hands back the held
/// elements, in order, as a vector.
#[verifier::external_body]
pub(crate) fn strings_into_vec(r: protobuf::RepeatedField<String>) -> (v: Vec<String>)
    ensures
        v@ == repeated_strings(r),
{
    r.into_vec()
}

/// Relies on protobuf's `RepeatedField::from_vec`: the returned field holds
/// exactly the elements of the given vector, in order.
#[verifier::external_body]
pub(crate) fn services_from_vec(v: Vec<SplinterService>) -> (r: protobuf::RepeatedField<
    SplinterService,
>)
    ensures
        repeated_services(r) == v@,
{
    protobuf::RepeatedField::from_vec(v)
}

/// Relies on protobuf's `RepeatedField::into_vec`: hands back the held
/// elements, in order, as a vector.
#[verifier::external_body]
pub(crate) fn services_into_vec(r: protobuf::RepeatedField<SplinterService>) -> (v: Vec<
    SplinterService,
>)
    ensures
        v@ == repeated_services(r),
{
    r.into_vec()
}

/// Relies on protobuf's `RepeatedField::from_vec`: the returned field holds
/// exactly the elements of the given vector, in order.
#[verifier::external_body]
pub(crate) fn nodes_from_vec(v: Vec<SplinterNode>) -> (r: protobuf::RepeatedField<SplinterNode>)
    ensures
        repeated_nodes(r) == v@,
{
    protobuf::RepeatedField::from_vec(v)
}

/// Relies on protobuf's `RepeatedField::into_vec`: hands back the held
/// elements, in order, as a vector.
#[verifier::external_body]
pub(crate) fn nodes_into_vec(r: protobuf::RepeatedField<SplinterNode>) -> (v: Vec<SplinterNode>)
    ensures
        v@ == repeated_nodes(r),
{
    r.into_vec()
}

impl View for SplinterNode {
    type V = NodeView;

    open spec fn view(&self) -> NodeView {
        NodeView { node_id: self.node_id@, endpoint: self.endpoint@ }
    }
}

impl View for SplinterService {
    type V = ServiceView;

    open spec fn view(&self) -> ServiceView {
        ServiceView {
            service_id: self.service_id@,
            service_type: self.service_type@,
            allowed_nodes: repeated_strings(self.allowed_nodes).map_values(|s: String| s@),
        }
    }
}

impl View for Circuit {
    type V = WireCircuitView;

    open spec fn view(&self) -> WireCircuitView {
        WireCircuitView {
            circuit_id: self.circuit_id@,
            roster: repeated_services(self.roster).map_values(|s: SplinterService| s@),
            members: repeated_nodes(self.members).map_values(|n: SplinterNode| n@),
            authorization_type: self.authorization_type,
            persistence: self.persistence,
            routes: self.routes,
            circuit_management_type: self.circuit_management_type@,
            application_metadata: self.application_metadata@,
        }
    }
}

impl View for CircuitCreateRequest {
    type V = WireCircuitView;

    open spec fn view(&self) -> WireCircuitView {
        self.circuit@
    }
}

} // verus!

//! The canonical in-memory model of a circuit-creation proposal, and its
//! lossless conversions to and from the wire form in [`crate::protos`].
//!
//! The one invariant of the model is that every enumerated administrative
//! field is fully resolved: the wire level reserves an "unset" code for each
//! enumeration, and decoding rejects it instead of substituting a default.

use vstd::prelude::*;

use crate::protos;

verus! {

broadcast use vstd::std_specs::vec::axiom_spec_into_iter;

/// The authorization scheme governing a circuit.
#[derive(Clone, Copy, Debug, PartialEq, Eq)]
pub enum AuthorizationType {
    Trust,
}

/// The persistence level of a circuit.
#[derive(Clone, Copy, Debug, PartialEq, Eq)]
pub enum PersistenceType {
    Any,
}

/// The routing behaviour of a circuit.
#[derive(Clone, Copy, Debug, PartialEq, Eq)]
pub enum RouteType {
    Any,
}

/// A node participating in a proposed circuit.
#[derive(Clone, Debug, PartialEq)]
pub struct SplinterNode {
    pub node_id: String,
    pub endpoint: String,
}

/// A service participating in a proposed circuit.  `allowed_nodes` is an
/// ordered membership allow-list; its order is preserved through conversion.
#[derive(Clone, Debug, PartialEq)]
pub struct SplinterService {
    pub service_id: String,
    pub service_type: String,
    pub allowed_nodes: Vec<String>,
}

/// A proposal to establish a new multi-party circuit.
#[derive(Clone, Debug, PartialEq)]
pub struct CreateCircuit {
    pub circuit_id: String,
    pub roster: Vec<SplinterService>,
    pub members: Vec<SplinterNode>,
    pub authorization_type: AuthorizationType,
    pub persistence: PersistenceType,
    pub routes: RouteType,
    pub circuit_management_type: String,
    pub application_metadata: Vec<u8>,
}

/// A fault found while converting between the wire form and the model:
/// an enumerated field of the wire message lacked a valid variant.
#[derive(Clone, Debug, PartialEq)]
pub enum MarshallingError {
    UnsetField(String),
}

/// Mathematical model of a node entry.
#[verifier::ext_equal]
pub ghost struct NodeView {
    pub node_id: Seq<char>,
    pub endpoint: Seq<char>,
}

/// Mathematical model of a service entry.
#[verifier::ext_equal]
pub ghost struct ServiceView {
    pub service_id: Seq<char>,
    pub service_type: Seq<char>,
    pub allowed_nodes: Seq<Seq<char>>,
}

/// Mathematical model of a proposal in its canonical (domain) form.
#[verifier::ext_equal]
pub ghost struct CircuitView {
    pub circuit_id: Seq<char>,
    pub roster: Seq<ServiceView>,
    pub members: Seq<NodeView>,
    pub authorization_type: AuthorizationType,
    pub persistence: PersistenceType,
    pub routes: RouteType,
    pub circuit_management_type: Seq<char>,
    pub application_metadata: Seq<u8>,
}

/// Mathematical model of a proposal in its wire form, where the enumerated
/// fields are codes that may still be unset.
#[verifier::ext_equal]
pub ghost struct WireCircuitView {
    pub circuit_id: Seq<char>,
    pub roster: Seq<ServiceView>,
    pub members: Seq<NodeView>,
    pub authorization_type: protos::CircuitAuthorizationType,
    pub persistence: protos::CircuitPersistenceType,
    pub routes: protos::CircuitRouteType,
    pub circuit_management_type: Seq<char>,
    pub application_metadata: Seq<u8>,
}

pub open spec fn string_views(ss: Seq<String>) -> Seq<Seq<char>> {
    ss.map_values(|s: String| s@)
}

pub open spec fn service_views(ss: Seq<SplinterService>) -> Seq<ServiceView> {
    ss.map_values(|s: SplinterService| s@)
}

pub open spec fn node_views(ns: Seq<SplinterNode>) -> Seq<NodeView> {
    ns.map_values(|n: SplinterNode| n@)
}

pub open spec fn wire_service_views(ss: Seq<protos::SplinterService>) -> Seq<ServiceView> {
    ss.map_values(|s: protos::SplinterService| s@)
}

pub open spec fn wire_node_views(ns: Seq<protos::SplinterNode>) -> Seq<NodeView> {
    ns.map_values(|n: protos::SplinterNode| n@)
}

impl View for SplinterNode {
    type V = NodeView;

    open spec fn view(&self) -> NodeView {
        NodeView { node_id: self.node_id@, endpoint: self.endpoint@ }
    }
}

impl View for SplinterService {
    type V = ServiceView;

    open spec fn view(&self) -> ServiceView {
        ServiceView {
            service_id: self.service_id@,
            service_type: self.service_type@,
            allowed_nodes: string_views(self.allowed_nodes@),
        }
    }
}

impl View for CreateCircuit {
    type V = CircuitView;

    open spec fn view(&self) -> CircuitView {
        CircuitView {
            circuit_id: self.circuit_id@,
            roster: service_views(self.roster@),
            members: node_views(self.members@),
            authorization_type: self.authorization_type,
            persistence: self.persistence,
            routes: self.routes,
            circuit_management_type: self.circuit_management_type@,
            application_metadata: self.application_metadata@,
        }
    }
}

impl View for MarshallingError {
    type V = Seq<char>;

    open spec fn view(&self) -> Seq<char> {
        match self {
            MarshallingError::UnsetField(reason) => reason@,
        }
    }
}

/// The one wire code that each domain variant encodes to.
pub open spec fn authorization_code(a: AuthorizationType) -> protos::CircuitAuthorizationType {
    match a {
        AuthorizationType::Trust => protos::CircuitAuthorizationType::TrustAuthorization,
    }
}

/// The domain variant that a wire code decodes to; the unset code decodes
/// to nothing.
pub open spec fn authorization_of_code(c: protos::CircuitAuthorizationType) -> Option<
    AuthorizationType,
> {
    match c {
        protos::CircuitAuthorizationType::TrustAuthorization => Some(AuthorizationType::Trust),
        protos::CircuitAuthorizationType::UnsetAuthorizationType => None,
    }
}

/// The one wire code that each domain variant encodes to.
pub open spec fn persistence_code(p: PersistenceType) -> protos::CircuitPersistenceType {
    match p {
        PersistenceType::Any => protos::CircuitPersistenceType::AnyPersistence,
    }
}

/// The domain variant that a wire code decodes to; the unset code decodes
/// to nothing.
pub open spec fn persistence_of_code(c: protos::CircuitPersistenceType) -> Option<
    PersistenceType,
> {
    match c {
        protos::CircuitPersistenceType::AnyPersistence => Some(PersistenceType::Any),
        protos::CircuitPersistenceType::UnsetPersistenceType => None,
    }
}

/// The one wire code that each domain variant encodes to.
pub open spec fn route_code(r: RouteType) -> protos::CircuitRouteType {
    match r {
        RouteType::Any => protos::CircuitRouteType::AnyRoute,
    }
}

/// The domain variant that a wire code decodes to; the unset code decodes
/// to nothing.
pub open spec fn route_of_code(c: protos::CircuitRouteType) -> Option<RouteType> {
    match c {
        protos::CircuitRouteType::AnyRoute => Some(RouteType::Any),
        protos::CircuitRouteType::UnsetRouteType => None,
    }
}

/// The wire form that encoding a proposal produces.
pub open spec fn wire_of(c: CircuitView) -> WireCircuitView {
    WireCircuitView {
        circuit_id: c.circuit_id,
        roster: c.roster,
        members: c.members,
        authorization_type: authorization_code(c.authorization_type),
        persistence: persistence_code(c.persistence),
        routes: route_code(c.routes),
        circuit_management_type: c.circuit_management_type,
        application_metadata: c.application_metadata,
    }
}

/// Whether a wire message decodes at all: every enumerated field must carry
/// a known, non-unset code.
pub open spec fn wire_decodes(w: WireCircuitView) -> bool {
    &&& authorization_of_code(w.authorization_type) is Some
    &&& persistence_of_code(w.persistence) is Some
    &&& route_of_code(w.routes) is Some
}

/// The proposal that a decodable wire message decodes to.
pub open spec fn domain_of(w: WireCircuitView) -> CircuitView {
    CircuitView {
        circuit_id: w.circuit_id,
        roster: w.roster,
        members: w.members,
        authorization_type: authorization_of_code(w.authorization_type).unwrap(),
        persistence: persistence_of_code(w.persistence).unwrap(),
        routes: route_of_code(w.routes).unwrap(),
        circuit_management_type: w.circuit_management_type,
        application_metadata: w.application_metadata,
    }
}

/// The reason reported for a wire message that does not decode: the first
/// unset enumerated field wins, in the order authorization, persistence,
/// routes.
pub open spec fn decode_error_message(w: WireCircuitView) -> Seq<char> {
    if authorization_of_code(w.authorization_type) is None {
        "authorization_type unset"@
    } else if persistence_of_code(w.persistence) is None {
        "persistence unset"@
    } else {
        "routes unset"@
    }
}

impl MarshallingError {
    /// The rendered description, in place of the standard display trait:
    /// every variant of this error reports an invalid enumerated type.
    pub fn display_message(&self) -> (m: String)
        ensures
            m@ == "Invalid enumerated type"@,
    {
        match self {
            MarshallingError::UnsetField(_) => String::from_str("Invalid enumerated type"),
        }
    }

    /// The underlying cause, mirroring the standard error interface: no
    /// variant of this error wraps another error.
    pub fn cause(&self) -> (c: Option<&MarshallingError>)
        ensures
            c is None,
    {
        match self {
            MarshallingError::UnsetField(_) => None,
        }
    }

    /// The reason recorded when the error was raised, naming the unset field.
    pub fn reason(&self) -> (r: &String)
        ensures
            r@ == self@,
    {
        match self {
            MarshallingError::UnsetField(reason) => reason,
        }
    }
}

impl SplinterNode {
    /// Encodes this node entry as its wire form, moving both fields.
    pub fn into_proto(self) -> (p: protos::SplinterNode)
        ensures
            p@ == self@,
    {
        protos::SplinterNode { node_id: self.node_id, endpoint: self.endpoint }
    }

    /// Decodes a wire node entry; a node entry has no enumerated field, so
    /// decoding always succeeds.
    pub fn from_proto(proto: protos::SplinterNode) -> (r: Result<Self, MarshallingError>)
        ensures
            r matches Ok(n) && n@ == proto@,
    {
        Ok(Self { node_id: proto.node_id, endpoint: proto.endpoint })
    }
}

impl SplinterService {
    /// Encodes this service entry as its wire form, moving every field and
    /// keeping the order of `allowed_nodes`.
    pub fn into_proto(self) -> (p: protos::SplinterService)
        ensures
            p@ == self@,
    {
        let SplinterService { service_id, service_type, allowed_nodes } = self;
        let p = protos::SplinterService {
            service_id,
            service_type,
            allowed_nodes: protos::strings_from_vec(allowed_nodes),
        };
        assert(p@ =~= self@);
        p
    }

    /// Decodes a wire service entry; a service entry has no enumerated
    /// field, so decoding always succeeds and keeps the order of
    /// `allowed_nodes`.
    pub fn from_proto(proto: protos::SplinterService) -> (r: Result<Self, MarshallingError>)
        ensures
            r matches Ok(s) && s@ == proto@,
    {
        let protos::SplinterService { service_id, service_type, allowed_nodes } = proto;
        let s = Self {
            service_id,
            service_type,
            allowed_nodes: protos::strings_into_vec(allowed_nodes),
        };
        assert(s@ =~= proto@);
        Ok(s)
    }
}

impl CreateCircuit {
    /// Decodes an inbound wire message into the canonical model.
    ///
    /// Every field is moved out of the wire structure, the nested roster and
    /// member entries element-wise and in order.  An unset enumerated field
    /// fails the whole conversion with [`MarshallingError::UnsetField`]; the
    /// first unset field wins and no partial proposal is returned.
    pub fn from_proto(proto: protos::Circuit) -> (r: Result<Self, MarshallingError>)
        ensures
            r is Ok <==> wire_decodes(proto@),
            r matches Ok(c) ==> c@ == domain_of(proto@),
            r matches Err(e) ==> e@ == decode_error_message(proto@),
    {
        let protos::Circuit {
            circuit_id,
            roster,
            members,
            authorization_type,
            persistence,
            routes,
            circuit_management_type,
            application_metadata,
        } = proto;

        let authorization_type = match authorization_type {
            protos::CircuitAuthorizationType::TrustAuthorization => AuthorizationType::Trust,
            protos::CircuitAuthorizationType::UnsetAuthorizationType => {
                return Err(
                    MarshallingError::UnsetField(String::from_str("authorization_type unset")),
                );
            },
        };

        let persistence = match persistence {
            protos::CircuitPersistenceType::AnyPersistence => PersistenceType::Any,
            protos::CircuitPersistenceType::UnsetPersistenceType => {
                return Err(
                    MarshallingError::UnsetField(String::from_str("persistence unset")),
                );
            },
        };

        let routes = match routes {
            protos::CircuitRouteType::AnyRoute => RouteType::Any,
            protos::CircuitRouteType::UnsetRouteType => {
                return Err(MarshallingError::UnsetField(String::from_str("routes unset")));
            },
        };

        let wire_roster = protos::services_into_vec(roster);
        let ghost wire_roster_seq = wire_roster@;
        let mut roster_out: Vec<SplinterService> = Vec::new();
        for s in it: wire_roster.into_iter()
            invariant
                it.seq() == wire_roster_seq,
                roster_out@.len() == it.index(),
                forall|j: int| 0 <= j < it.index() ==> roster_out@[j]@ == it.seq()[j]@,
        {
            match SplinterService::from_proto(s) {
                Ok(converted) => roster_out.push(converted),
                Err(e) => {
                    return Err(e);
                },
            }
        }
        assert(service_views(roster_out@) =~= wire_service_views(wire_roster_seq));

        let wire_members = protos::nodes_into_vec(members);
        let ghost wire_members_seq = wire_members@;
        let mut members_out: Vec<SplinterNode> = Vec::new();
        for n in it: wire_members.into_iter()
            invariant
                it.seq() == wire_members_seq,
                members_out@.len() == it.index(),
                forall|j: int| 0 <= j < it.index() ==> members_out@[j]@ == it.seq()[j]@,
        {
            match SplinterNode::from_proto(n) {
                Ok(converted) => members_out.push(converted),
                Err(e) => {
                    return Err(e);
                },
            }
        }
        assert(node_views(members_out@) =~= wire_node_views(wire_members_seq));

        let c = Self {
            circuit_id,
            roster: roster_out,
            members: members_out,
            authorization_type,
            persistence,
            routes,
            circuit_management_type,
            application_metadata,
        };
        assert(c@ =~= domain_of(proto@));
        Ok(c)
    }

    /// Encodes the canonical model as an outbound wire message, moving every
    /// field and keeping the order of the roster and the members.
    ///
    /// With the current variant sets encoding cannot fail; the `Result`
    /// return stands so that a future variant needing validation can fail
    /// without changing the signature, and callers should propagate it.
    pub fn into_proto(self) -> (r: Result<protos::CircuitCreateRequest, MarshallingError>)
        ensures
            r matches Ok(req) && req@ == wire_of(self@),
    {
        let CreateCircuit {
            circuit_id,
            roster,
            members,
            authorization_type,
            persistence,
            routes,
            circuit_management_type,
            application_metadata,
        } = self;

        let ghost roster_seq = roster@;
        let mut wire_roster: Vec<protos::SplinterService> = Vec::new();
        for s in it: roster.into_iter()
            invariant
                it.seq() == roster_seq,
                wire_roster@.len() == it.index(),
                forall|j: int| 0 <= j < it.index() ==> wire_roster@[j]@ == it.seq()[j]@,
        {
            wire_roster.push(s.into_proto());
        }
        assert(wire_service_views(wire_roster@) =~= service_views(roster_seq));

        let ghost members_seq = members@;
        let mut wire_members: Vec<protos::SplinterNode> = Vec::new();
        for n in it: members.into_iter()
            invariant
                it.seq() == members_seq,
                wire_members@.len() == it.index(),
                forall|j: int| 0 <= j < it.index() ==> wire_members@[j]@ == it.seq()[j]@,
        {
            wire_members.push(n.into_proto());
        }
        assert(wire_node_views(wire_members@) =~= node_views(members_seq));

        let wire_authorization = match authorization_type {
            AuthorizationType::Trust => protos::CircuitAuthorizationType::TrustAuthorization,
        };
        let wire_persistence = match persistence {
            PersistenceType::Any => protos::CircuitPersistenceType::AnyPersistence,
        };
        let wire_routes = match routes {
            RouteType::Any => protos::CircuitRouteType::AnyRoute,
        };

        let circuit = protos::Circuit {
            circuit_id,
            roster: protos::services_from_vec(wire_roster),
            members: protos::nodes_from_vec(wire_members),
            authorization_type: wire_authorization,
            persistence: wire_persistence,
            routes: wire_routes,
            circuit_management_type,
            application_metadata,
        };
        let req = protos::CircuitCreateRequest { circuit };
        assert(req@ =~= wire_of(self@));
        Ok(req)
    }
}

/// Round trip: a proposal whose enumerated fields are valid (and in the
/// model they always are, since no unset variant exists there) survives
/// encoding to the wire form and decoding back unchanged, field for field
/// and order included.
pub proof fn lemma_wire_round_trip(c: CircuitView)
    ensures
        wire_decodes(wire_of(c)),
        domain_of(wire_of(c)) == c,
{
    assert(domain_of(wire_of(c)) =~= c);
}

} // verus!

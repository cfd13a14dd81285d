use splinter::messages::{
    AuthorizationType, CreateCircuit, MarshallingError, PersistenceType, RouteType, SplinterNode,
    SplinterService,
};
use splinter::protos;

fn sample_circuit() -> CreateCircuit {
    CreateCircuit {
        circuit_id: "alpha-circuit".to_string(),
        roster: vec![
            SplinterService {
                service_id: "svc-a".to_string(),
                service_type: "scabbard".to_string(),
                allowed_nodes: vec!["n2".to_string(), "n1".to_string(), "n3".to_string()],
            },
            SplinterService {
                service_id: "svc-b".to_string(),
                service_type: "echo".to_string(),
                allowed_nodes: vec!["n1".to_string()],
            },
        ],
        members: vec![
            SplinterNode {
                node_id: "n1".to_string(),
                endpoint: "tcp://node-1:8000".to_string(),
            },
            SplinterNode {
                node_id: "n2".to_string(),
                endpoint: "tcp://node-2:8000".to_string(),
            },
        ],
        authorization_type: AuthorizationType::Trust,
        persistence: PersistenceType::Any,
        routes: RouteType::Any,
        circuit_management_type: "gameroom".to_string(),
        application_metadata: vec![0, 1, 255],
    }
}

fn sample_wire_circuit(
    authorization_type: protos::CircuitAuthorizationType,
    persistence: protos::CircuitPersistenceType,
    routes: protos::CircuitRouteType,
) -> protos::Circuit {
    protos::Circuit {
        circuit_id: "alpha-circuit".to_string(),
        roster: protobuf::RepeatedField::from_vec(Vec::new()),
        members: protobuf::RepeatedField::from_vec(Vec::new()),
        authorization_type,
        persistence,
        routes,
        circuit_management_type: "gameroom".to_string(),
        application_metadata: Vec::new(),
    }
}

#[test]
fn round_trip_preserves_every_field() {
    let original = sample_circuit();
    let request = sample_circuit().into_proto().expect("encoding should succeed");
    let decoded = CreateCircuit::from_proto(request.circuit).expect("decoding should succeed");
    assert_eq!(decoded, original);
}

#[test]
fn allowed_nodes_order_is_preserved_not_sorted() {
    let service = SplinterService {
        service_id: "svc-a".to_string(),
        service_type: "scabbard".to_string(),
        allowed_nodes: vec!["n2".to_string(), "n1".to_string(), "n3".to_string()],
    };
    let wire = service.into_proto();
    let decoded = SplinterService::from_proto(wire).expect("decoding should succeed");
    assert_eq!(
        decoded.allowed_nodes,
        vec!["n2".to_string(), "n1".to_string(), "n3".to_string()]
    );
}

#[test]
fn unset_authorization_type_is_rejected() {
    let wire = sample_wire_circuit(
        protos::CircuitAuthorizationType::UnsetAuthorizationType,
        protos::CircuitPersistenceType::AnyPersistence,
        protos::CircuitRouteType::AnyRoute,
    );
    let result = CreateCircuit::from_proto(wire);
    assert_eq!(
        result,
        Err(MarshallingError::UnsetField(
            "authorization_type unset".to_string()
        ))
    );
}

#[test]
fn unset_persistence_type_is_rejected() {
    let wire = sample_wire_circuit(
        protos::CircuitAuthorizationType::TrustAuthorization,
        protos::CircuitPersistenceType::UnsetPersistenceType,
        protos::CircuitRouteType::AnyRoute,
    );
    let result = CreateCircuit::from_proto(wire);
    assert_eq!(
        result,
        Err(MarshallingError::UnsetField(
            "persistence unset".to_string()
        ))
    );
}

#[test]
fn unset_route_type_is_rejected() {
    let wire = sample_wire_circuit(
        protos::CircuitAuthorizationType::TrustAuthorization,
        protos::CircuitPersistenceType::AnyPersistence,
        protos::CircuitRouteType::UnsetRouteType,
    );
    let result = CreateCircuit::from_proto(wire);
    assert_eq!(
        result,
        Err(MarshallingError::UnsetField("routes unset".to_string()))
    );
}

#[test]
fn first_unset_field_wins_when_all_are_unset() {
    let wire = sample_wire_circuit(
        protos::CircuitAuthorizationType::UnsetAuthorizationType,
        protos::CircuitPersistenceType::UnsetPersistenceType,
        protos::CircuitRouteType::UnsetRouteType,
    );
    let result = CreateCircuit::from_proto(wire);
    assert_eq!(
        result,
        Err(MarshallingError::UnsetField(
            "authorization_type unset".to_string()
        ))
    );
}

#[test]
fn node_conversion_moves_both_fields() {
    let node = SplinterNode {
        node_id: "n7".to_string(),
        endpoint: "tcp://node-7:8000".to_string(),
    };
    let wire = node.into_proto();
    assert_eq!(wire.node_id, "n7".to_string());
    assert_eq!(wire.endpoint, "tcp://node-7:8000".to_string());
    let back = SplinterNode::from_proto(wire).expect("decoding should succeed");
    assert_eq!(back.node_id, "n7".to_string());
    assert_eq!(back.endpoint, "tcp://node-7:8000".to_string());
}

#[test]
fn marshalling_error_reports_its_reason() {
    let err = MarshallingError::UnsetField("routes unset".to_string());
    assert_eq!(err.reason(), &"routes unset".to_string());
    assert_eq!(err.display_message(), "Invalid enumerated type".to_string());
    assert_eq!(err.cause(), None);
}

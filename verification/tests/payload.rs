use splinter::messages::{AuthorizationType, CreateCircuit, PersistenceType, RouteType};
use splinter::payload::{
    append_chunk, authorization_type_from_tag, persistence_type_from_tag, route_type_from_tag,
};

const BODY: &str = "{\"circuit_id\":\"c1\",\"roster\":[],\"members\":[],\"authorization_type\":\"Trust\",\"persistence\":\"Any\",\"routes\":\"Any\",\"circuit_management_type\":\"mgmt\",\"application_metadata\":[]}";

fn accumulate(chunks: &[&[u8]]) -> Vec<u8> {
    let mut body: Vec<u8> = Vec::new();
    for chunk in chunks {
        append_chunk(&mut body, chunk);
    }
    body
}

#[test]
fn json_ingestion_is_chunk_boundary_independent() {
    let bytes = BODY.as_bytes();
    let split_early = accumulate(&[&bytes[..7], &bytes[7..]]);
    let split_late = accumulate(&[&bytes[..bytes.len() - 3], &bytes[bytes.len() - 3..]]);
    assert_eq!(split_early, split_late);

    let from_early =
        CreateCircuit::from_payload(&split_early).expect("the body should decode");
    let from_late = CreateCircuit::from_payload(&split_late).expect("the body should decode");
    assert_eq!(from_early, from_late);

    assert_eq!(from_early.circuit_id, "c1".to_string());
    assert!(from_early.roster.is_empty());
    assert!(from_early.members.is_empty());
    assert_eq!(from_early.authorization_type, AuthorizationType::Trust);
    assert_eq!(from_early.persistence, PersistenceType::Any);
    assert_eq!(from_early.routes, RouteType::Any);
    assert_eq!(from_early.circuit_management_type, "mgmt".to_string());
    assert!(from_early.application_metadata.is_empty());
}

#[test]
fn append_chunk_concatenates_in_arrival_order() {
    let mut body: Vec<u8> = Vec::new();
    append_chunk(&mut body, &[1, 2]);
    append_chunk(&mut body, &[]);
    append_chunk(&mut body, &[3]);
    assert_eq!(body, vec![1, 2, 3]);
}

#[test]
fn nested_entries_are_decoded_in_order() {
    let body = "{\"circuit_id\":\"c2\",\"roster\":[{\"service_id\":\"s1\",\"service_type\":\"scabbard\",\"allowed_nodes\":[\"n2\",\"n1\",\"n3\"]}],\"members\":[{\"node_id\":\"n1\",\"endpoint\":\"tcp://node-1:8000\"},{\"node_id\":\"n2\",\"endpoint\":\"tcp://node-2:8000\"}],\"authorization_type\":\"Trust\",\"persistence\":\"Any\",\"routes\":\"Any\",\"circuit_management_type\":\"mgmt\",\"application_metadata\":[7,0,255]}";
    let circuit =
        CreateCircuit::from_payload(body.as_bytes()).expect("the body should decode");
    assert_eq!(circuit.roster.len(), 1);
    assert_eq!(
        circuit.roster[0].allowed_nodes,
        vec!["n2".to_string(), "n1".to_string(), "n3".to_string()]
    );
    assert_eq!(circuit.members.len(), 2);
    assert_eq!(circuit.members[0].node_id, "n1".to_string());
    assert_eq!(circuit.members[1].node_id, "n2".to_string());
    assert_eq!(circuit.application_metadata, vec![7, 0, 255]);
}

#[test]
fn invalid_json_fails_the_request() {
    assert_eq!(CreateCircuit::from_payload(b"{\"circuit_id\":"), None);
}

#[test]
fn missing_field_fails_the_request() {
    let body = "{\"roster\":[],\"members\":[],\"authorization_type\":\"Trust\",\"persistence\":\"Any\",\"routes\":\"Any\",\"circuit_management_type\":\"mgmt\",\"application_metadata\":[]}";
    assert_eq!(CreateCircuit::from_payload(body.as_bytes()), None);
}

#[test]
fn unknown_authorization_tag_fails_the_request() {
    let body = BODY.replace("\"Trust\"", "\"Unset\"");
    assert_eq!(CreateCircuit::from_payload(body.as_bytes()), None);
}

#[test]
fn out_of_range_metadata_byte_fails_the_request() {
    let body = BODY.replace("\"application_metadata\":[]", "\"application_metadata\":[256]");
    assert_eq!(CreateCircuit::from_payload(body.as_bytes()), None);
}

#[test]
fn enumerated_tags_decode_exactly() {
    assert_eq!(
        authorization_type_from_tag(&"Trust".to_string()),
        Some(AuthorizationType::Trust)
    );
    assert_eq!(authorization_type_from_tag(&"trust".to_string()), None);
    assert_eq!(
        persistence_type_from_tag(&"Any".to_string()),
        Some(PersistenceType::Any)
    );
    assert_eq!(persistence_type_from_tag(&"any".to_string()), None);
    assert_eq!(route_type_from_tag(&"Any".to_string()), Some(RouteType::Any));
    assert_eq!(route_type_from_tag(&"".to_string()), None);
}

//! Ingestion of a streamed JSON request body.
//!
//! The surrounding program owns the request task: it awaits each chunk of
//! the body and hands it in here.  The library appends chunks to the
//! accumulation buffer and, once the stream is complete, decodes the whole
//! buffer into a proposal in one shot.  A proposal is only ever built from a
//! complete buffer, so abandoning accumulation mid-stream can never expose
//! a partial proposal.
//!
//! The JSON text itself is read by serde_json, which this crate trusts.
//! What a given byte string parses to is a function of the bytes alone, so
//! the parse result carries a name, [`spec_parse_json`], over a ghost model
//! of JSON documents, [`JsonView`]; which fields the body must carry, their
//! shapes, and the enumerated tags are then fixed by [`decode_circuit`] and
//! checked by verified code.

use vstd::prelude::*;

use crate::messages::{
    node_views, service_views, string_views, AuthorizationType, CircuitView, CreateCircuit,
    NodeView, PersistenceType, RouteType, ServiceView, SplinterNode, SplinterService,
};

verus! {

#[verifier::external_type_specification]
#[verifier::external_body]
pub struct ExValue(serde_json::Value);

/// Mathematical model of one parsed JSON document.
///
/// This is the reading fixed for the names below: a number that serde_json
/// hands out as a `u64` is `UInt`; any other number (negative, fractional,
/// or out of range) is `OtherNumber`; an object maps each key to the model
/// of its value, a repeated key keeping the last occurrence, as serde_json
/// does.
#[verifier::ext_equal]
pub ghost enum JsonView {
    Null,
    Bool(bool),
    UInt(u64),
    OtherNumber,
    Text(Seq<char>),
    Array(Seq<JsonView>),
    Object(Map<Seq<char>, JsonView>),
}

/// The model of the document held by a parsed `serde_json::Value`.
pub uninterp spec fn json_view(v: serde_json::Value) -> JsonView;

/// The document that a byte string parses to, or nothing when the bytes are
/// not one valid JSON document: a function of the bytes alone.
pub uninterp spec fn spec_parse_json(body: Seq<u8>) -> Option<JsonView>;

/// The models of a sequence of parsed values, element-wise.
pub open spec fn json_views(vs: Seq<serde_json::Value>) -> Seq<JsonView> {
    vs.map_values(|x: serde_json::Value| json_view(x))
}

/// Relies on serde_json::from_slice::<Value>: parses the bytes as one JSON
/// document, or nothing when they are not valid JSON.  Success and the
/// parsed document depend on the bytes alone, which is what the two names
/// state.
#[verifier::external_body]
fn parse_json(body: &[u8]) -> (r: Option<serde_json::Value>)
    ensures
        (r is Some) == (spec_parse_json(body@) is Some),
        r matches Some(v) ==> Some(json_view(v)) == spec_parse_json(body@),
{
    serde_json::from_slice::<serde_json::Value>(body).ok()
}

/// Relies on serde_json::Value::get with a string index: the named member
/// when the value is a JSON object that has it, nothing otherwise.
#[verifier::external_body]
fn json_get<'a>(v: &'a serde_json::Value, name: &str) -> (r: Option<&'a serde_json::Value>)
    ensures
        (r is Some) == (json_view(*v) matches JsonView::Object(m) && m.contains_key(name@)),
        r matches Some(f) ==> (json_view(*v) matches JsonView::Object(m) && json_view(*f)
            == m[name@]),
{
    v.get(name)
}

/// Relies on serde_json::Value::as_str: the content when the value is a
/// JSON string, nothing otherwise.
#[verifier::external_body]
fn json_as_string(v: &serde_json::Value) -> (r: Option<String>)
    ensures
        (r is Some) == (json_view(*v) is Text),
        r matches Some(s) ==> s@ == json_view(*v)->Text_0,
{
    v.as_str().map(String::from)
}

/// Relies on serde_json::Value::as_array: the elements when the value is a
/// JSON array, nothing otherwise.
#[verifier::external_body]
fn json_as_array<'a>(v: &'a serde_json::Value) -> (r: Option<&'a Vec<serde_json::Value>>)
    ensures
        (r is Some) == (json_view(*v) is Array),
        r matches Some(a) ==> json_views(a@) == json_view(*v)->Array_0,
{
    v.as_array()
}

/// Relies on serde_json::Value::as_u64: the numeric value exactly when the
/// value is a number that fits a `u64`, which is what `UInt` stands for.
#[verifier::external_body]
fn json_as_u64(v: &serde_json::Value) -> (r: Option<u64>)
    ensures
        r == (match json_view(*v) {
            JsonView::UInt(n) => Some(n),
            _ => None::<u64>,
        }),
{
    v.as_u64()
}

/// Appends one received chunk of a request body to the accumulation buffer.
/// The buffer grows by exactly the chunk, so the finished buffer is the
/// concatenation of the chunks in arrival order, wherever the stream
/// happened to split them.
pub fn append_chunk(body: &mut Vec<u8>, chunk: &[u8])
    ensures
        final (body)@ == old(body)@ + chunk@,
{
    let ghost orig = body@;
    let mut i: usize = 0;
    while i < chunk.len()
        invariant
            i <= chunk.len(),
            body@ == orig + chunk@.subrange(0, i as int),
        decreases chunk.len() - i,
    {
        body.push(chunk[i]);
        assert(body@ =~= orig + chunk@.subrange(0, (i + 1) as int));
        i = i + 1;
    }
    assert(body@ =~= orig + chunk@);
}

/// The authorization scheme that a JSON tag decodes to; an unknown tag
/// decodes to nothing.
pub open spec fn spec_authorization_from_tag(tag: Seq<char>) -> Option<AuthorizationType> {
    if tag == "Trust"@ {
        Some(AuthorizationType::Trust)
    } else {
        None
    }
}

/// The persistence level that a JSON tag decodes to; an unknown tag decodes
/// to nothing.
pub open spec fn spec_persistence_from_tag(tag: Seq<char>) -> Option<PersistenceType> {
    if tag == "Any"@ {
        Some(PersistenceType::Any)
    } else {
        None
    }
}

/// The routing behaviour that a JSON tag decodes to; an unknown tag decodes
/// to nothing.
pub open spec fn spec_route_from_tag(tag: Seq<char>) -> Option<RouteType> {
    if tag == "Any"@ {
        Some(RouteType::Any)
    } else {
        None
    }
}

/// Decodes the JSON tag of an authorization scheme; any tag but the known
/// variants is rejected rather than defaulted.
pub fn authorization_type_from_tag(tag: &String) -> (r: Option<AuthorizationType>)
    ensures
        r == spec_authorization_from_tag(tag@),
{
    if *tag == String::from_str("Trust") {
        Some(AuthorizationType::Trust)
    } else {
        None
    }
}

/// Decodes the JSON tag of a persistence level; any tag but the known
/// variants is rejected rather than defaulted.
pub fn persistence_type_from_tag(tag: &String) -> (r: Option<PersistenceType>)
    ensures
        r == spec_persistence_from_tag(tag@),
{
    if *tag == String::from_str("Any") {
        Some(PersistenceType::Any)
    } else {
        None
    }
}

/// Decodes the JSON tag of a routing behaviour; any tag but the known
/// variants is rejected rather than defaulted.
pub fn route_type_from_tag(tag: &String) -> (r: Option<RouteType>)
    ensures
        r == spec_route_from_tag(tag@),
{
    if *tag == String::from_str("Any") {
        Some(RouteType::Any)
    } else {
        None
    }
}

/// Whether every element of a JSON array is a string.
pub open spec fn all_text(items: Seq<JsonView>) -> bool {
    forall|i: int| 0 <= i < items.len() ==> (#[trigger] items[i]) is Text
}

/// The string contents of a JSON array whose elements are all strings.
pub open spec fn text_values(items: Seq<JsonView>) -> Seq<Seq<char>> {
    items.map_values(|j: JsonView| j->Text_0)
}

/// Whether every element of a JSON array is an integer between 0 and 255.
pub open spec fn all_bytes(items: Seq<JsonView>) -> bool {
    forall|i: int|
        0 <= i < items.len() ==> ((#[trigger] items[i]) matches JsonView::UInt(n) && n <= 255)
}

/// The byte contents of a JSON array whose elements are all bytes.
pub open spec fn byte_values(items: Seq<JsonView>) -> Seq<u8> {
    items.map_values(|j: JsonView| (j->UInt_0) as u8)
}

/// The node entry that a JSON document decodes to: an object with the two
/// string fields, or nothing.
pub open spec fn decode_node(j: JsonView) -> Option<NodeView> {
    match j {
        JsonView::Object(m) => {
            if m.contains_key("node_id"@) && m["node_id"@] is Text && m.contains_key("endpoint"@)
                && m["endpoint"@] is Text {
                Some(
                    NodeView {
                        node_id: m["node_id"@]->Text_0,
                        endpoint: m["endpoint"@]->Text_0,
                    },
                )
            } else {
                None
            }
        },
        _ => None,
    }
}

/// The service entry that a JSON document decodes to: an object with the
/// two string fields and the string-array allow-list, or nothing.
pub open spec fn decode_service(j: JsonView) -> Option<ServiceView> {
    match j {
        JsonView::Object(m) => {
            if m.contains_key("service_id"@) && m["service_id"@] is Text && m.contains_key(
                "service_type"@,
            ) && m["service_type"@] is Text && m.contains_key("allowed_nodes"@)
                && m["allowed_nodes"@] is Array && all_text(m["allowed_nodes"@]->Array_0) {
                Some(
                    ServiceView {
                        service_id: m["service_id"@]->Text_0,
                        service_type: m["service_type"@]->Text_0,
                        allowed_nodes: text_values(m["allowed_nodes"@]->Array_0),
                    },
                )
            } else {
                None
            }
        },
        _ => None,
    }
}

/// Whether every element of a JSON array decodes as a service entry.
pub open spec fn all_services(items: Seq<JsonView>) -> bool {
    forall|i: int| 0 <= i < items.len() ==> decode_service(#[trigger] items[i]) is Some
}

/// The service entries of a JSON array whose elements all decode.
pub open spec fn service_values(items: Seq<JsonView>) -> Seq<ServiceView> {
    items.map_values(|j: JsonView| decode_service(j).unwrap())
}

/// Whether every element of a JSON array decodes as a node entry.
pub open spec fn all_nodes(items: Seq<JsonView>) -> bool {
    forall|i: int| 0 <= i < items.len() ==> decode_node(#[trigger] items[i]) is Some
}

/// The node entries of a JSON array whose elements all decode.
pub open spec fn node_values(items: Seq<JsonView>) -> Seq<NodeView> {
    items.map_values(|j: JsonView| decode_node(j).unwrap())
}

/// The proposal that a parsed JSON document decodes to: an object carrying
/// every field of the request schema in its required shape, with known
/// enumerated tags, or nothing.
pub open spec fn decode_circuit(j: JsonView) -> Option<CircuitView> {
    match j {
        JsonView::Object(m) => {
            if m.contains_key("circuit_id"@) && m["circuit_id"@] is Text && m.contains_key(
                "roster"@,
            ) && m["roster"@] is Array && all_services(m["roster"@]->Array_0) && m.contains_key(
                "members"@,
            ) && m["members"@] is Array && all_nodes(m["members"@]->Array_0) && m.contains_key(
                "authorization_type"@,
            ) && m["authorization_type"@] is Text && spec_authorization_from_tag(
                m["authorization_type"@]->Text_0,
            ) is Some && m.contains_key("persistence"@) && m["persistence"@] is Text
                && spec_persistence_from_tag(m["persistence"@]->Text_0) is Some && m.contains_key(
                "routes"@,
            ) && m["routes"@] is Text && spec_route_from_tag(m["routes"@]->Text_0) is Some
                && m.contains_key("circuit_management_type"@) && m["circuit_management_type"@]
                is Text && m.contains_key("application_metadata"@) && m["application_metadata"@]
                is Array && all_bytes(m["application_metadata"@]->Array_0) {
                Some(
                    CircuitView {
                        circuit_id: m["circuit_id"@]->Text_0,
                        roster: service_values(m["roster"@]->Array_0),
                        members: node_values(m["members"@]->Array_0),
                        authorization_type: spec_authorization_from_tag(
                            m["authorization_type"@]->Text_0,
                        ).unwrap(),
                        persistence: spec_persistence_from_tag(m["persistence"@]->Text_0).unwrap(),
                        routes: spec_route_from_tag(m["routes"@]->Text_0).unwrap(),
                        circuit_management_type: m["circuit_management_type"@]->Text_0,
                        application_metadata: byte_values(m["application_metadata"@]->Array_0),
                    },
                )
            } else {
                None
            }
        },
        _ => None,
    }
}

/// The named field of a JSON object, when it is present and is a string.
fn field_string(root: &serde_json::Value, name: &str) -> (r: Option<String>)
    ensures
        (r is Some) == (json_view(*root) matches JsonView::Object(m) && m.contains_key(name@)
            && m[name@] is Text),
        r matches Some(s) ==> (json_view(*root) matches JsonView::Object(m) && s@
            == m[name@]->Text_0),
{
    match json_get(root, name) {
        Some(f) => json_as_string(f),
        None => None,
    }
}

/// A node entry from its JSON object form.
fn node_from_json(v: &serde_json::Value) -> (r: Option<SplinterNode>)
    ensures
        (r is Some) == (decode_node(json_view(*v)) is Some),
        r matches Some(n) ==> Some(n@) == decode_node(json_view(*v)),
{
    let node_id = match field_string(v, "node_id") {
        Some(s) => s,
        None => {
            return None;
        },
    };
    let endpoint = match field_string(v, "endpoint") {
        Some(s) => s,
        None => {
            return None;
        },
    };
    Some(SplinterNode { node_id, endpoint })
}

/// A list of strings from its JSON array form.
#[verifier::loop_isolation(false)]
fn string_list_from_json(v: &serde_json::Value) -> (r: Option<Vec<String>>)
    ensures
        (r is Some) == (json_view(*v) matches JsonView::Array(items) && all_text(items)),
        r matches Some(l) ==> (json_view(*v) matches JsonView::Array(items) && string_views(l@)
            == text_values(items)),
{
    let items = match json_as_array(v) {
        Some(a) => a,
        None => {
            return None;
        },
    };
    let ghost arr = json_views(items@);
    let mut out: Vec<String> = Vec::new();
    let mut i: usize = 0;
    while i < items.len()
        invariant
            i <= items.len(),
            arr == json_views(items@),
            arr.len() == items@.len(),
            out@.len() == i,
            forall|j: int| 0 <= j < i ==> (#[trigger] arr[j]) is Text,
            forall|j: int| 0 <= j < i ==> out@[j]@ == arr[j]->Text_0,
        decreases items.len() - i,
    {
        match json_as_string(&items[i]) {
            Some(s) => out.push(s),
            None => {
                assert(arr[i as int] == json_view(items@[i as int]));
                return None;
            },
        }
        assert(arr[i as int] == json_view(items@[i as int]));
        i = i + 1;
    }
    assert(string_views(out@) =~= text_values(arr));
    Some(out)
}

/// A service entry from its JSON object form.
fn service_from_json(v: &serde_json::Value) -> (r: Option<SplinterService>)
    ensures
        (r is Some) == (decode_service(json_view(*v)) is Some),
        r matches Some(s) ==> Some(s@) == decode_service(json_view(*v)),
{
    let service_id = match field_string(v, "service_id") {
        Some(s) => s,
        None => {
            return None;
        },
    };
    let service_type = match field_string(v, "service_type") {
        Some(s) => s,
        None => {
            return None;
        },
    };
    let allowed_nodes = match json_get(v, "allowed_nodes") {
        Some(f) => match string_list_from_json(f) {
            Some(l) => l,
            None => {
                return None;
            },
        },
        None => {
            return None;
        },
    };
    let s = SplinterService { service_id, service_type, allowed_nodes };
    assert(Some(s@) =~= decode_service(json_view(*v)));
    Some(s)
}

/// The opaque application metadata from its JSON form: an array of byte
/// values, each between 0 and 255.
#[verifier::loop_isolation(false)]
fn metadata_from_json(v: &serde_json::Value) -> (r: Option<Vec<u8>>)
    ensures
        (r is Some) == (json_view(*v) matches JsonView::Array(items) && all_bytes(items)),
        r matches Some(l) ==> (json_view(*v) matches JsonView::Array(items) && l@ == byte_values(
            items,
        )),
{
    let items = match json_as_array(v) {
        Some(a) => a,
        None => {
            return None;
        },
    };
    let ghost arr = json_views(items@);
    let mut out: Vec<u8> = Vec::new();
    let mut i: usize = 0;
    while i < items.len()
        invariant
            i <= items.len(),
            arr == json_views(items@),
            arr.len() == items@.len(),
            out@.len() == i,
            forall|j: int|
                0 <= j < i ==> ((#[trigger] arr[j]) matches JsonView::UInt(n) && n <= 255),
            forall|j: int| 0 <= j < i ==> out@[j] == (arr[j]->UInt_0) as u8,
        decreases items.len() - i,
    {
        let n = match json_as_u64(&items[i]) {
            Some(n) => n,
            None => {
                assert(arr[i as int] == json_view(items@[i as int]));
                return None;
            },
        };
        if n > 255 {
            assert(arr[i as int] == json_view(items@[i as int]));
            return None;
        }
        out.push(n as u8);
        assert(arr[i as int] == json_view(items@[i as int]));
        i = i + 1;
    }
    assert(out@ =~= byte_values(arr));
    Some(out)
}

impl CreateCircuit {
    /// Decodes a fully accumulated JSON request body into a proposal.
    ///
    /// The result is a function of the body bytes alone: it is the proposal
    /// that [`decode_circuit`] gives for the parsed document, and it exists
    /// exactly when the bytes parse as JSON and the document carries every
    /// field of the request schema in its required shape.  A parse failure,
    /// a missing or ill-shaped field, or an unknown enumerated tag fails
    /// the whole request, and no partial proposal is returned.
    #[verifier::loop_isolation(false)]
    pub fn from_payload(body: &[u8]) -> (r: Option<CreateCircuit>)
        ensures
            (r is Some) == (spec_parse_json(body@) matches Some(j) && decode_circuit(j) is Some),
            r matches Some(c) ==> Some(c@) == decode_circuit(spec_parse_json(body@).unwrap()),
    {
        let root = match parse_json(body) {
            Some(v) => v,
            None => {
                return None;
            },
        };
        let ghost jroot = json_view(root);

        let circuit_id = match field_string(&root, "circuit_id") {
            Some(s) => s,
            None => {
                return None;
            },
        };

        let mut roster: Vec<SplinterService> = Vec::new();
        let roster_items = match json_get(&root, "roster") {
            Some(f) => match json_as_array(f) {
                Some(a) => a,
                None => {
                    return None;
                },
            },
            None => {
                return None;
            },
        };
        let ghost roster_arr = json_views(roster_items@);
        let mut i: usize = 0;
        while i < roster_items.len()
            invariant
                i <= roster_items.len(),
                roster_arr == json_views(roster_items@),
                roster_arr.len() == roster_items@.len(),
                roster@.len() == i,
                forall|j: int| 0 <= j < i ==> decode_service(#[trigger] roster_arr[j]) is Some,
                forall|j: int| 0 <= j < i ==> Some(roster@[j]@) == decode_service(roster_arr[j]),
            decreases roster_items.len() - i,
        {
            match service_from_json(&roster_items[i]) {
                Some(s) => roster.push(s),
                None => {
                    assert(roster_arr[i as int] == json_view(roster_items@[i as int]));
                    return None;
                },
            }
            assert(roster_arr[i as int] == json_view(roster_items@[i as int]));
            i = i + 1;
        }
        assert(service_views(roster@) =~= service_values(roster_arr));

        let mut members: Vec<SplinterNode> = Vec::new();
        let member_items = match json_get(&root, "members") {
            Some(f) => match json_as_array(f) {
                Some(a) => a,
                None => {
                    return None;
                },
            },
            None => {
                return None;
            },
        };
        let ghost member_arr = json_views(member_items@);
        let mut i: usize = 0;
        while i < member_items.len()
            invariant
                i <= member_items.len(),
                member_arr == json_views(member_items@),
                member_arr.len() == member_items@.len(),
                members@.len() == i,
                forall|j: int| 0 <= j < i ==> decode_node(#[trigger] member_arr[j]) is Some,
                forall|j: int| 0 <= j < i ==> Some(members@[j]@) == decode_node(member_arr[j]),
            decreases member_items.len() - i,
        {
            match node_from_json(&member_items[i]) {
                Some(n) => members.push(n),
                None => {
                    assert(member_arr[i as int] == json_view(member_items@[i as int]));
                    return None;
                },
            }
            assert(member_arr[i as int] == json_view(member_items@[i as int]));
            i = i + 1;
        }
        assert(node_views(members@) =~= node_values(member_arr));

        let authorization_type = match field_string(&root, "authorization_type") {
            Some(tag) => match authorization_type_from_tag(&tag) {
                Some(a) => a,
                None => {
                    return None;
                },
            },
            None => {
                return None;
            },
        };
        let persistence = match field_string(&root, "persistence") {
            Some(tag) => match persistence_type_from_tag(&tag) {
                Some(p) => p,
                None => {
                    return None;
                },
            },
            None => {
                return None;
            },
        };
        let routes = match field_string(&root, "routes") {
            Some(tag) => match route_type_from_tag(&tag) {
                Some(r) => r,
                None => {
                    return None;
                },
            },
            None => {
                return None;
            },
        };
        let circuit_management_type = match field_string(&root, "circuit_management_type") {
            Some(s) => s,
            None => {
                return None;
            },
        };
        let application_metadata = match json_get(&root, "application_metadata") {
            Some(f) => match metadata_from_json(f) {
                Some(m) => m,
                None => {
                    return None;
                },
            },
            None => {
                return None;
            },
        };

        let c = CreateCircuit {
            circuit_id,
            roster,
            members,
            authorization_type,
            persistence,
            routes,
            circuit_management_type,
            application_metadata,
        };
        assert(decode_circuit(jroot) is Some);
        assert(Some(c@) =~= decode_circuit(jroot));
        Some(c)
    }
}

} // verus!

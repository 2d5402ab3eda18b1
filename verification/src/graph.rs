//! The execution bridge: the endpoint address, the validation of
//! declared result shapes, the request payload, and the decoding of the
//! JSON response envelope into typed result rows.

use vstd::prelude::*;
use vstd::string::{StringExecFns, StrSliceExecFns};
use vstd::utf8::{valid_utf8, decode_utf8};
use crate::error::Error;
use crate::json::{JsonValue, json_parse, json_parse_model, bytes_to_text};
use crate::path::{CompiledQuery, Expectation};
use crate::wire::{dec_str, u64_to_string};

verus! {

/// One result row: field names to field values, in the order the decoder
/// met them.
#[derive(Clone, Debug)]
pub struct GraphNode(pub Vec<(String, String)>);

impl View for GraphNode {
    type V = Seq<(Seq<char>, Seq<char>)>;

    open spec fn view(&self) -> Seq<(Seq<char>, Seq<char>)> {
        self.0.deep_view()
    }
}

impl DeepView for GraphNode {
    type V = Seq<(Seq<char>, Seq<char>)>;

    open spec fn deep_view(&self) -> Seq<(Seq<char>, Seq<char>)> {
        self.view()
    }
}

/// The value of the first field of `fields` named `name`, if any.
pub open spec fn field_value(fields: Seq<(Seq<char>, Seq<char>)>, name: Seq<char>) -> Option<
    Seq<char>,
>
    decreases fields.len(),
{
    if fields.len() == 0 {
        None
    } else if fields[0].0 == name {
        Some(fields[0].1)
    } else {
        field_value(fields.drop_first(), name)
    }
}

impl GraphNode {
    /// The value of the first field named `name`, if any.
    pub fn get(&self, name: &str) -> (r: Option<&String>)
        ensures
            r matches Some(value) ==> field_value(self@, name@) == Some(value@),
            r is None ==> field_value(self@, name@) is None,
    {
        let name_string = String::from_str(name);
        let mut i: usize = 0;
        proof {
            assert(self@.skip(0) =~= self@);
        }
        while i < self.0.len()
            invariant
                0 <= i <= self.0@.len(),
                name_string@ == name@,
                field_value(self@, name@) == field_value(self@.skip(i as int), name@),
            decreases self.0@.len() - i,
        {
            if self.0[i].0 == name_string {
                proof {
                    assert(self@.skip(i as int)[0] == self@[i as int]);
                }
                return Some(&self.0[i].1);
            }
            proof {
                assert(self@.skip(i as int)[0] == self@[i as int]);
                assert(self@.skip(i as int).drop_first() =~= self@.skip(i as int + 1));
            }
            i = i + 1;
        }
        None
    }
}

/// The rows a query returned.
#[derive(Clone, Debug)]
pub struct Nodes(pub Vec<GraphNode>);

impl View for Nodes {
    type V = Seq<Seq<(Seq<char>, Seq<char>)>>;

    open spec fn view(&self) -> Seq<Seq<(Seq<char>, Seq<char>)>> {
        self.0.deep_view()
    }
}

/// The version segment of the service's HTTP API path; both variants
/// name the one version the wire protocol has.
#[derive(Clone, Copy, Debug)]
pub enum APIVersion {
    V1,
    DefaultVersion,
}

// ===================== envelope model =====================

/// The text carried by a string value; empty for every other value.
pub open spec fn text_of(v: JsonValue) -> Seq<char> {
    match v {
        JsonValue::Text(s) => s@,
        _ => Seq::<char>::empty(),
    }
}

/// Whether every field of a decoded object holds a string value.
pub open spec fn all_fields_text(fields: Seq<(String, JsonValue)>) -> bool {
    forall|i: int| 0 <= i < fields.len() ==> (#[trigger] fields[i]).1 is Text
}

/// The fields of a decoded object as name and text pairs, in order.
pub open spec fn fields_texts(fields: Seq<(String, JsonValue)>) -> Seq<(Seq<char>, Seq<char>)> {
    Seq::new(fields.len(), |i: int| (fields[i].0@, text_of(fields[i].1)))
}

/// What one result row means: a JSON object whose values are all
/// strings; anything else is not a row.
pub open spec fn node_model(v: JsonValue) -> Option<Seq<(Seq<char>, Seq<char>)>> {
    match v {
        JsonValue::Object(fields) => if all_fields_text(fields@) {
            Some(fields_texts(fields@))
        } else {
            None
        },
        _ => None,
    }
}

/// Whether every element of a result array is a well-formed row.
pub open spec fn all_nodes_ok(items: Seq<JsonValue>) -> bool {
    forall|i: int| 0 <= i < items.len() ==> (#[trigger] node_model(items[i])) is Some
}

/// The rows of a result array, in order.
pub open spec fn nodes_model(items: Seq<JsonValue>) -> Seq<Seq<(Seq<char>, Seq<char>)>> {
    Seq::new(items.len(), |i: int| node_model(items[i]).unwrap())
}

/// The value of the first object field named `name`, if any.
pub open spec fn field_lookup(fields: Seq<(String, JsonValue)>, name: Seq<char>) -> Option<
    JsonValue,
>
    decreases fields.len(),
{
    if fields.len() == 0 {
        None
    } else if fields[0].0@ == name {
        Some(fields[0].1)
    } else {
        field_lookup(fields.drop_first(), name)
    }
}

/// What the whole response envelope means: an object whose `error` field
/// is absent or null, and whose `result` field is absent or null (no
/// rows) or an array of rows; everything else fails decoding.
pub open spec fn envelope_model(v: JsonValue) -> Option<Seq<Seq<(Seq<char>, Seq<char>)>>> {
    match v {
        JsonValue::Object(fields) => {
            let err = field_lookup(fields@, "error"@);
            if !(err is None) && err != Some(JsonValue::Null) {
                None
            } else {
                match field_lookup(fields@, "result"@) {
                    None => Some(Seq::<Seq<(Seq<char>, Seq<char>)>>::empty()),
                    Some(JsonValue::Null) => Some(Seq::<Seq<(Seq<char>, Seq<char>)>>::empty()),
                    Some(JsonValue::Array(items)) => if all_nodes_ok(items@) {
                        Some(nodes_model(items@))
                    } else {
                        None
                    },
                    Some(_) => None,
                }
            }
        },
        _ => None,
    }
}

// ===================== envelope decoding =====================

/// Finds the first field of a decoded object with the given name.
fn lookup_field<'a>(fields: &'a Vec<(String, JsonValue)>, name: &String) -> (r: Option<
    &'a JsonValue,
>)
    ensures
        r matches Some(value) ==> field_lookup(fields@, name@) == Some(*value),
        r is None ==> field_lookup(fields@, name@) is None,
{
    let mut i: usize = 0;
    proof {
        assert(fields@.skip(0) =~= fields@);
    }
    while i < fields.len()
        invariant
            0 <= i <= fields@.len(),
            field_lookup(fields@, name@) == field_lookup(fields@.skip(i as int), name@),
        decreases fields@.len() - i,
    {
        if fields[i].0 == *name {
            proof {
                assert(fields@.skip(i as int)[0] == fields@[i as int]);
            }
            return Some(&fields[i].1);
        }
        proof {
            assert(fields@.skip(i as int)[0] == fields@[i as int]);
            assert(fields@.skip(i as int).drop_first() =~= fields@.skip(i as int + 1));
        }
        i = i + 1;
    }
    None
}

/// Decodes one result row: an object whose values are all strings.
#[verifier::loop_isolation(false)]
pub fn decode_node(v: &JsonValue) -> (r: Option<GraphNode>)
    ensures
        r is Some <==> node_model(*v) is Some,
        r matches Some(node) ==> node_model(*v) == Some(node@),
{
    match v {
        JsonValue::Object(fields) => {
            let mut out: Vec<(String, String)> = Vec::new();
            let mut i: usize = 0;
            proof {
                assert(out.deep_view() =~~= fields_texts(fields@.take(0)));
            }
            while i < fields.len()
                invariant
                    0 <= i <= fields@.len(),
                    forall|j: int| 0 <= j < i ==> (#[trigger] fields@[j]).1 is Text,
                    out.deep_view() == fields_texts(fields@.take(i as int)),
                decreases fields@.len() - i,
            {
                let pair = &fields[i];
                match &pair.1 {
                    JsonValue::Text(s) => {
                        let key = pair.0.clone();
                        let val = s.clone();
                        let ghost pre = out.deep_view();
                        proof {
                            assert(key@ == fields@[i as int].0@);
                            assert(val@ == text_of(fields@[i as int].1));
                            assert(fields_texts(fields@.take(i + 1)) =~= fields_texts(
                                fields@.take(i as int),
                            ).push((key@, val@)));
                        }
                        out.push((key, val));
                        proof {
                            assert(out@[i as int].deep_view() == (key@, val@));
                            assert(out.deep_view() =~= pre.push((key@, val@)));
                            assert(out.deep_view() == fields_texts(fields@.take(i + 1)));
                        }
                    },
                    _ => {
                        proof {
                            assert(!((fields@[i as int]).1 is Text));
                            assert(!all_fields_text(fields@));
                        }
                        return None;
                    },
                }
                i = i + 1;
            }
            proof {
                assert(fields@.take(fields@.len() as int) =~= fields@);
            }
            Some(GraphNode(out))
        },
        _ => None,
    }
}

/// Decodes the whole response envelope into result rows.
#[verifier::loop_isolation(false)]
pub fn decode_nodes(v: &JsonValue) -> (r: Option<Nodes>)
    ensures
        r is Some <==> envelope_model(*v) is Some,
        r matches Some(nodes) ==> envelope_model(*v) == Some(nodes@),
{
    match v {
        JsonValue::Object(fields) => {
            let error_name = String::from_str("error");
            match lookup_field(fields, &error_name) {
                None => {},
                Some(value) => match value {
                    JsonValue::Null => {},
                    _ => {
                        return None;
                    },
                },
            }
            let result_name = String::from_str("result");
            match lookup_field(fields, &result_name) {
                None => Some(Nodes(Vec::new())),
                Some(result_value) => match result_value {
                    JsonValue::Null => Some(Nodes(Vec::new())),
                    JsonValue::Array(items) => {
                        let mut rows: Vec<GraphNode> = Vec::new();
                        let mut i: usize = 0;
                        proof {
                            assert(rows.deep_view() =~~= nodes_model(items@.take(0)));
                        }
                        while i < items.len()
                            invariant
                                0 <= i <= items@.len(),
                                forall|j: int| 0 <= j < i ==> (#[trigger] node_model(items@[j]))
                                    is Some,
                                rows.deep_view() == nodes_model(items@.take(i as int)),
                            decreases items@.len() - i,
                        {
                            match decode_node(&items[i]) {
                                None => {
                                    proof {
                                        assert(!all_nodes_ok(items@));
                                    }
                                    return None;
                                },
                                Some(node) => {
                                    let ghost node_view = node@;
                                    let ghost pre = rows.deep_view();
                                    proof {
                                        assert(node_model(items@[i as int]) == Some(node_view));
                                        assert(nodes_model(items@.take(i + 1)) =~= nodes_model(
                                            items@.take(i as int),
                                        ).push(node_view));
                                    }
                                    rows.push(node);
                                    proof {
                                        assert(rows@[i as int].deep_view() == node_view);
                                        assert(rows.deep_view() =~= pre.push(node_view));
                                        assert(rows.deep_view() == nodes_model(
                                            items@.take(i + 1),
                                        ));
                                    }
                                },
                            }
                            i = i + 1;
                        }
                        proof {
                            assert(items@.take(items@.len() as int) =~= items@);
                        }
                        Some(Nodes(rows))
                    },
                    _ => None,
                },
            }
        },
        _ => None,
    }
}

/// `text` cut to its first two hundred characters for diagnostics.
pub open spec fn truncated(text: Seq<char>) -> Seq<char> {
    if text.len() <= 200 {
        text
    } else {
        text.take(200)
    }
}

/// Cuts `text` to its first two hundred characters.
fn truncate_text(text: &str) -> (r: String)
    ensures
        r@ == truncated(text@),
{
    let n = text.unicode_len();
    if n <= 200 {
        String::from_str(text)
    } else {
        let cut = text.substring_char(0, 200);
        String::from_str(cut)
    }
}

// ===================== the bridge =====================

/// The endpoint address built from a host and a port: the fixed HTTP
/// path of the service's one API version.
pub open spec fn endpoint_text(host: Seq<char>, port: int) -> Seq<char> {
    "http://"@ + host + ":"@ + dec_str(port as nat) + "/api/v1/query/gremlin"@
}

/// A well-formed endpoint: a named host and a port in the registered
/// range.
pub open spec fn valid_endpoint(host: Seq<char>, port: int) -> bool {
    host.len() > 0 && 1 <= port <= 65535
}

/// Holds the address of a running graph service and prepares and decodes
/// what goes over the wire to it.
pub struct Graph {
    url: String,
}

impl Graph {
    /// The endpoint address this bridge talks to.
    pub closed spec fn url_spec(&self) -> Seq<char> {
        self.url@
    }

    /// The endpoint address, for the transport that performs the request.
    pub fn url(&self) -> (r: &String)
        ensures
            r@ == self.url_spec(),
    {
        &self.url
    }

    /// Builds a bridge to the service at `host:port`, rejecting a
    /// malformed endpoint at once.
    pub fn new(host: &str, port: i32, _version: APIVersion) -> (r: Result<Graph, Error>)
        ensures
            valid_endpoint(host@, port as int) ==> (r matches Ok(g) && g.url_spec()
                == endpoint_text(host@, port as int)),
            !valid_endpoint(host@, port as int) ==> (r matches Err(e) && e is InvalidAddress),
    {
        if host.is_empty() || port < 1 || port > 65535 {
            return Err(Error::InvalidAddress);
        }
        let mut url = String::from_str("http://");
        url.append(host);
        url.append(":");
        let rendered_port = u64_to_string(port as u64);
        url.append(rendered_port.as_str());
        url.append("/api/v1/query/gremlin");
        proof {
            assert((port as u64) as nat == port as nat);
            assert(url@ =~= endpoint_text(host@, port as int));
        }
        Ok(Graph { url })
    }

    /// Builds a bridge to a service on the local machine at its usual
    /// port.
    pub fn default() -> (r: Result<Graph, Error>)
        ensures
            r matches Ok(g) && g.url_spec() == endpoint_text("localhost"@, 64210),
    {
        proof {
            reveal_strlit("localhost");
            assert(valid_endpoint("localhost"@, 64210));
        }
        Graph::new("localhost", 64210, APIVersion::DefaultVersion)
    }

    /// Validates the declared result shape before anything is sent: an
    /// unfinalized query has none, and only a node sequence can be
    /// decoded end-to-end over this connection.
    pub fn check_expectation(expectation: &Expectation) -> (r: Result<(), Error>)
        ensures
            *expectation is Unknown ==> (r matches Err(e) && e is QueryNotFinalized),
            *expectation is NodeSequence ==> r is Ok,
            !(*expectation is Unknown) && !(*expectation is NodeSequence) ==> (r matches Err(e)
                && e matches Error::UnsupportedExpectation(x) && x == *expectation),
    {
        match expectation {
            Expectation::Unknown => Err(Error::QueryNotFinalized),
            Expectation::NodeSequence => Ok(()),
            Expectation::SingleNode => Err(Error::UnsupportedExpectation(Expectation::SingleNode)),
            Expectation::NameSequence => Err(
                Error::UnsupportedExpectation(Expectation::NameSequence),
            ),
            Expectation::TagSequence => Err(
                Error::UnsupportedExpectation(Expectation::TagSequence),
            ),
            Expectation::SingleTag => Err(Error::UnsupportedExpectation(Expectation::SingleTag)),
        }
    }

    /// The request payload of a compiled query: its hoisted declarations
    /// followed by its body.
    pub fn query_payload(query: &CompiledQuery) -> (r: String)
        ensures
            r@ == query.prefix@ + query.value@,
    {
        let mut payload = String::from_str(query.prefix.as_str());
        payload.append(query.value.as_str());
        payload
    }

    /// Decodes the bytes the service sent back: UTF-8 text holding a JSON
    /// envelope with the result rows. Any other shape fails with a
    /// truncated copy of the offending text.
    pub fn decode_traversal(source: &Vec<u8>, _expectation: Expectation) -> (r: Result<
        Nodes,
        Error,
    >)
        ensures
            !valid_utf8(source@) ==> (r matches Err(e) && e matches Error::ResponseDecodingFailed(t)
                && t@ == Seq::<char>::empty()),
            valid_utf8(source@) && json_parse_model(decode_utf8(source@)) is None ==> (r matches
            Err(e) && e matches Error::ResponseDecodingFailed(t) && t@ == truncated(
                decode_utf8(source@),
            )),
            valid_utf8(source@) ==> (json_parse_model(decode_utf8(source@)) matches Some(v) ==> (
            envelope_model(v) is None ==> (r matches Err(e) && e
                matches Error::ResponseDecodingFailed(t) && t@ == truncated(
                decode_utf8(source@),
            )))),
            valid_utf8(source@) ==> (json_parse_model(decode_utf8(source@)) matches Some(v) ==> (
            envelope_model(v) matches Some(rows) ==> (r matches Ok(nodes) && nodes@ == rows))),
    {
        let text = match bytes_to_text(source) {
            None => {
                return Err(Error::ResponseDecodingFailed(String::new()));
            },
            Some(t) => t,
        };
        let parsed = match json_parse(text.as_str()) {
            None => {
                return Err(Error::ResponseDecodingFailed(truncate_text(text.as_str())));
            },
            Some(v) => v,
        };
        match decode_nodes(&parsed) {
            Some(nodes) => Ok(nodes),
            None => Err(Error::ResponseDecodingFailed(truncate_text(text.as_str()))),
        }
    }
}

} // verus!

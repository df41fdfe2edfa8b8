//! JSON-RPC payloads (requests, notifications, responses) and their JSON
//! objects.

use vstd::prelude::*;
use crate::jsonrpc::json::{JsonValue, JsonNumber, lookup, u64_value, i64_value, int_number, number_from_i64,
    value_as_u64, value_as_i64, take_fields, distinct_keys};

verus! {

/// A call that expects a response.
#[derive(Debug)]
pub struct JsonRpcRequest {
    pub id: u64,
    pub method: String,
    pub params: Option<JsonValue>,
}

/// A call without a response.
#[derive(Debug)]
pub struct JsonRpcNotification {
    pub method: String,
    pub params: Option<JsonValue>,
}

/// The answer to a request.
#[derive(Debug)]
pub struct JsonRpcResponse {
    pub id: u64,
    pub result: Option<JsonValue>,
    pub error: Option<JsonRpcError>,
}

/// The error of a failed request.
#[derive(Debug)]
pub struct JsonRpcError {
    pub code: i32,
    pub message: String,
    pub data: Option<JsonValue>,
}

/// A message of the protocol.
#[derive(Debug)]
pub enum JsonRpcPayload {
    Request(JsonRpcRequest),
    Notification(JsonRpcNotification),
    Response(JsonRpcResponse),
}

/// Why a JSON value is not a payload.
#[derive(Debug, Clone, Copy, PartialEq, Eq, Structural)]
pub enum PayloadError {
    NotAnObject,
    RequestIdNotNumber,
    RequestMethodNotString,
    NotificationMethodNotString,
    ResponseIdNotNumber,
    InvalidStructure,
}

impl PayloadError {
    /// The description of the error.
    pub fn message(&self) -> (r: &'static str)
        ensures
            r@ == payload_error_text(*self),
    {
        match self {
            PayloadError::NotAnObject => "JSON must be an object",
            PayloadError::RequestIdNotNumber => "Request id must be a number",
            PayloadError::RequestMethodNotString => "Request method must be a string",
            PayloadError::NotificationMethodNotString => "Notification method must be a string",
            PayloadError::ResponseIdNotNumber => "Response id must be a number",
            PayloadError::InvalidStructure => "Invalid JSON-RPC payload structure",
        }
    }
}

/// The description of a payload error.
pub open spec fn payload_error_text(e: PayloadError) -> Seq<char> {
    match e {
        PayloadError::NotAnObject => "JSON must be an object"@,
        PayloadError::RequestIdNotNumber => "Request id must be a number"@,
        PayloadError::RequestMethodNotString => "Request method must be a string"@,
        PayloadError::NotificationMethodNotString => "Notification method must be a string"@,
        PayloadError::ResponseIdNotNumber => "Response id must be a number"@,
        PayloadError::InvalidStructure => "Invalid JSON-RPC payload structure"@,
    }
}

/// The error object of a response: present when the value is an object
/// with an integer `code` (taken modulo 2^32 as an `i32`) and a string
/// `message`; its `data` is taken as it is.
pub open spec fn error_object(v: Option<JsonValue>) -> Option<JsonRpcError> {
    match v {
        Some(JsonValue::Object(fields)) => match (
            lookup(fields@, "code"@),
            lookup(fields@, "message"@),
        ) {
            (Some(c), Some(JsonValue::Str(m))) => match i64_value(c) {
                Some(n) => Some(JsonRpcError { code: n as i32, message: m, data: lookup(fields@, "data"@) }),
                None => None,
            },
            _ => None,
        },
        _ => None,
    }
}

/// The payload a JSON value stands for. An object with `id` and `method`
/// is a request, one with only `method` a notification, one with only `id`
/// a response; the id must be a non-negative integer and the method a
/// string.
pub open spec fn parse_payload(j: JsonValue) -> Result<JsonRpcPayload, PayloadError> {
    match j {
        JsonValue::Object(entries) => {
            let es = entries@;
            match (lookup(es, "id"@), lookup(es, "method"@)) {
                (Some(id), Some(m)) => match u64_value(id) {
                    None => Err(PayloadError::RequestIdNotNumber),
                    Some(n) => match m {
                        JsonValue::Str(s) => Ok(
                            JsonRpcPayload::Request(
                                JsonRpcRequest { id: n, method: s, params: lookup(es, "params"@) },
                            ),
                        ),
                        _ => Err(PayloadError::RequestMethodNotString),
                    },
                },
                (None, Some(m)) => match m {
                    JsonValue::Str(s) => Ok(
                        JsonRpcPayload::Notification(
                            JsonRpcNotification { method: s, params: lookup(es, "params"@) },
                        ),
                    ),
                    _ => Err(PayloadError::NotificationMethodNotString),
                },
                (Some(id), None) => match u64_value(id) {
                    None => Err(PayloadError::ResponseIdNotNumber),
                    Some(n) => Ok(
                        JsonRpcPayload::Response(
                            JsonRpcResponse {
                                id: n,
                                result: lookup(es, "result"@),
                                error: error_object(lookup(es, "error"@)),
                            },
                        ),
                    ),
                },
                (None, None) => Err(PayloadError::InvalidStructure),
            }
        },
        _ => Err(PayloadError::NotAnObject),
    }
}

fn field_keys3(a: &'static str, b: &'static str, c: &'static str) -> (keys: Vec<&'static str>)
    ensures
        keys@ == seq![a, b, c],
{
    let mut keys: Vec<&'static str> = Vec::new();
    keys.push(a);
    keys.push(b);
    keys.push(c);
    keys
}

fn error_keys() -> (keys: Vec<&'static str>)
    ensures
        keys@.len() == 3,
        keys@[0]@ == "code"@,
        keys@[1]@ == "message"@,
        keys@[2]@ == "data"@,
        distinct_keys(keys@),
{
    let keys = field_keys3("code", "message", "data");
    proof {
        reveal_strlit("code");
        reveal_strlit("message");
        reveal_strlit("data");
        assert(keys@[0]@.len() == 4 && keys@[1]@.len() == 7 && keys@[0]@[0] != keys@[2]@[0]);
    }
    keys
}

fn payload_keys() -> (keys: Vec<&'static str>)
    ensures
        keys@.len() == 5,
        keys@[0]@ == "id"@,
        keys@[1]@ == "method"@,
        keys@[2]@ == "params"@,
        keys@[3]@ == "result"@,
        keys@[4]@ == "error"@,
        distinct_keys(keys@),
{
    let mut keys: Vec<&'static str> = Vec::new();
    keys.push("id");
    keys.push("method");
    keys.push("params");
    keys.push("result");
    keys.push("error");
    proof {
        reveal_strlit("id");
        reveal_strlit("method");
        reveal_strlit("params");
        reveal_strlit("result");
        reveal_strlit("error");
        assert(keys@[0]@.len() == 2 && keys@[4]@.len() == 5 && keys@[1]@.len() == 6);
        assert(keys@[1]@[0] == 'm' && keys@[2]@[0] == 'p' && keys@[3]@[0] == 'r');
    }
    keys
}

/// Reads the error object of a response.
fn parse_error_object(v: Option<JsonValue>) -> (r: Option<JsonRpcError>)
    ensures
        r == error_object(v),
{
    match v {
        Some(JsonValue::Object(fields)) => {
            let keys = error_keys();
            let mut f = take_fields(fields, &keys);
            let data = f.pop().unwrap();
            let message = f.pop().unwrap();
            let code = f.pop().unwrap();
            match (code, message) {
                (Some(c), Some(JsonValue::Str(m))) => match value_as_i64(&c) {
                    Some(n) => Some(JsonRpcError { code: n as i32, message: m, data }),
                    None => None,
                },
                _ => None,
            }
        },
        _ => None,
    }
}

/// The payload that a JSON value stands for (see [`parse_payload`]).
pub fn parse_json_to_payload(json: JsonValue) -> (r: Result<JsonRpcPayload, PayloadError>)
    ensures
        r == parse_payload(json),
{
    let entries = match json {
        JsonValue::Object(entries) => entries,
        _ => return Err(PayloadError::NotAnObject),
    };
    let keys = payload_keys();
    let mut f = take_fields(entries, &keys);
    let error = f.pop().unwrap();
    let result = f.pop().unwrap();
    let params = f.pop().unwrap();
    let method = f.pop().unwrap();
    let id = f.pop().unwrap();
    match (id, method) {
        (Some(id), Some(m)) => match value_as_u64(&id) {
            None => Err(PayloadError::RequestIdNotNumber),
            Some(n) => match m {
                JsonValue::Str(s) => Ok(JsonRpcPayload::Request(JsonRpcRequest { id: n, method: s, params })),
                _ => Err(PayloadError::RequestMethodNotString),
            },
        },
        (None, Some(m)) => match m {
            JsonValue::Str(s) => Ok(JsonRpcPayload::Notification(JsonRpcNotification { method: s, params })),
            _ => Err(PayloadError::NotificationMethodNotString),
        },
        (Some(id), None) => match value_as_u64(&id) {
            None => Err(PayloadError::ResponseIdNotNumber),
            Some(n) => Ok(
                JsonRpcPayload::Response(JsonRpcResponse { id: n, result, error: parse_error_object(error) }),
            ),
        },
        (None, None) => Err(PayloadError::InvalidStructure),
    }
}

/// The entry `e` has key `key` and value `v`.
pub open spec fn entry_is(e: (String, JsonValue), key: Seq<char>, v: JsonValue) -> bool {
    e.0@ == key && e.1 == v
}

/// The entry `e` is `"jsonrpc": "2.0"`.
pub open spec fn version_entry(e: (String, JsonValue)) -> bool {
    &&& e.0@ == "jsonrpc"@
    &&& e.1 matches JsonValue::Str(s) && s@ == "2.0"@
}

/// `s[at..]` holds `"params"` exactly when the payload has parameters.
pub open spec fn params_entries(s: Seq<(String, JsonValue)>, at: int, params: Option<JsonValue>) -> bool {
    match params {
        Some(p) => s.len() == at + 1 && entry_is(s[at], "params"@, p),
        None => s.len() == at,
    }
}

/// The JSON object of an error: `code`, `message`, and `data` when present.
pub open spec fn is_error_json(e: JsonRpcError, v: JsonValue) -> bool {
    v matches JsonValue::Object(fields) && {
        let s = fields@;
        &&& s.len() >= 2
        &&& entry_is(s[0], "code"@, int_number(e.code as i64))
        &&& entry_is(s[1], "message"@, JsonValue::Str(e.message))
        &&& match e.data {
            Some(d) => s.len() == 3 && entry_is(s[2], "data"@, d),
            None => s.len() == 2,
        }
    }
}

/// The JSON object of a payload: `"jsonrpc": "2.0"` first, then for a
/// request `id`, `method` and `params` if any; for a notification `method`
/// and `params` if any; for a response `id` and then `result` if there is
/// one, else `error` if there is one.
pub open spec fn is_payload_json(p: JsonRpcPayload, j: JsonValue) -> bool {
    j matches JsonValue::Object(entries) && {
        let s = entries@;
        &&& s.len() >= 1
        &&& version_entry(s[0])
        &&& match p {
            JsonRpcPayload::Request(r) => {
                &&& s.len() >= 3
                &&& entry_is(s[1], "id"@, JsonValue::Number(JsonNumber::PosInt(r.id)))
                &&& entry_is(s[2], "method"@, JsonValue::Str(r.method))
                &&& params_entries(s, 3, r.params)
            },
            JsonRpcPayload::Notification(n) => {
                &&& s.len() >= 2
                &&& entry_is(s[1], "method"@, JsonValue::Str(n.method))
                &&& params_entries(s, 2, n.params)
            },
            JsonRpcPayload::Response(r) => {
                &&& s.len() >= 2
                &&& entry_is(s[1], "id"@, JsonValue::Number(JsonNumber::PosInt(r.id)))
                &&& match (r.result, r.error) {
                    (Some(res), _) => s.len() == 3 && entry_is(s[2], "result"@, res),
                    (None, Some(e)) => s.len() == 3 && s[2].0@ == "error"@ && is_error_json(e, s[2].1),
                    (None, None) => s.len() == 2,
                }
            },
        }
    }
}

fn version_pair() -> (e: (String, JsonValue))
    ensures
        version_entry(e),
{
    ("jsonrpc".to_owned(), JsonValue::Str("2.0".to_owned()))
}

fn error_to_json(e: JsonRpcError) -> (v: JsonValue)
    ensures
        is_error_json(e, v),
{
    let mut fields: Vec<(String, JsonValue)> = Vec::new();
    fields.push(("code".to_owned(), number_from_i64(e.code as i64)));
    fields.push(("message".to_owned(), JsonValue::Str(e.message)));
    if let Some(d) = e.data {
        fields.push(("data".to_owned(), d));
    }
    JsonValue::Object(fields)
}

/// The JSON object of a payload (see [`is_payload_json`]).
pub fn payload_to_json(payload: JsonRpcPayload) -> (j: JsonValue)
    ensures
        is_payload_json(payload, j),
{
    let mut obj: Vec<(String, JsonValue)> = Vec::new();
    obj.push(version_pair());
    match payload {
        JsonRpcPayload::Request(req) => {
            obj.push(("id".to_owned(), JsonValue::Number(JsonNumber::PosInt(req.id))));
            obj.push(("method".to_owned(), JsonValue::Str(req.method)));
            if let Some(params) = req.params {
                obj.push(("params".to_owned(), params));
            }
        },
        JsonRpcPayload::Notification(notif) => {
            obj.push(("method".to_owned(), JsonValue::Str(notif.method)));
            if let Some(params) = notif.params {
                obj.push(("params".to_owned(), params));
            }
        },
        JsonRpcPayload::Response(resp) => {
            obj.push(("id".to_owned(), JsonValue::Number(JsonNumber::PosInt(resp.id))));
            if let Some(result) = resp.result {
                obj.push(("result".to_owned(), result));
            } else if let Some(error) = resp.error {
                obj.push(("error".to_owned(), error_to_json(error)));
            }
        },
    }
    JsonValue::Object(obj)
}

/// The keys that payload objects use are pairwise different.
proof fn lemma_key_texts()
    ensures
        "jsonrpc"@ != "id"@,
        "jsonrpc"@ != "method"@,
        "jsonrpc"@ != "params"@,
        "jsonrpc"@ != "result"@,
        "jsonrpc"@ != "error"@,
        "id"@ != "method"@,
        "id"@ != "params"@,
        "id"@ != "result"@,
        "id"@ != "error"@,
        "method"@ != "params"@,
        "method"@ != "result"@,
        "method"@ != "error"@,
        "params"@ != "result"@,
        "params"@ != "error"@,
        "result"@ != "error"@,
        "code"@ != "message"@,
        "code"@ != "data"@,
        "message"@ != "data"@,
{
    reveal_strlit("jsonrpc");
    reveal_strlit("id");
    reveal_strlit("method");
    reveal_strlit("params");
    reveal_strlit("result");
    reveal_strlit("error");
    reveal_strlit("code");
    reveal_strlit("message");
    reveal_strlit("data");
    assert("jsonrpc"@.len() == 7 && "id"@.len() == 2 && "method"@.len() == 6 && "params"@.len() == 6);
    assert("result"@.len() == 6 && "error"@.len() == 5 && "code"@.len() == 4 && "message"@.len() == 7);
    assert("data"@.len() == 4);
    assert("jsonrpc"@[0] != "message"@[0]);
    assert("method"@[0] != "params"@[0] && "method"@[0] != "result"@[0]);
    assert("params"@[0] != "result"@[0]);
    assert("code"@[0] != "data"@[0]);
}

/// Reading back the JSON object of a payload gives the payload again;
/// the one exception is a response with both a result and an error, whose
/// object keeps only the result.
pub proof fn lemma_payload_round_trip(p: JsonRpcPayload, j: JsonValue)
    requires
        is_payload_json(p, j),
        !(p matches JsonRpcPayload::Response(r) && r.result is Some && r.error is Some),
    ensures
        parse_payload(j) == Ok::<JsonRpcPayload, PayloadError>(p),
{
    lemma_key_texts();
    reveal_with_fuel(lookup, 5);
    let es = j->Object_0@;
    match p {
        JsonRpcPayload::Request(r) => {
            assert(lookup(es, "id"@) == Some(JsonValue::Number(JsonNumber::PosInt(r.id))));
            assert(lookup(es, "method"@) == Some(JsonValue::Str(r.method)));
            assert(lookup(es, "params"@) == r.params);
        },
        JsonRpcPayload::Notification(n) => {
            assert(lookup(es, "id"@) is None);
            assert(lookup(es, "method"@) == Some(JsonValue::Str(n.method)));
            assert(lookup(es, "params"@) == n.params);
        },
        JsonRpcPayload::Response(r) => {
            assert(lookup(es, "id"@) == Some(JsonValue::Number(JsonNumber::PosInt(r.id))));
            assert(lookup(es, "method"@) is None);
            assert(lookup(es, "result"@) == r.result);
            match r.error {
                Some(e) => {
                    let fs = es[2].1->Object_0@;
                    assert(lookup(fs, "code"@) == Some(int_number(e.code as i64)));
                    assert(lookup(fs, "message"@) == Some(JsonValue::Str(e.message)));
                    assert(lookup(fs, "data"@) == e.data);
                    assert(i64_value(int_number(e.code as i64)) == Some(e.code as i64));
                    assert(error_object(lookup(es, "error"@)) == r.error);
                },
                None => {
                    assert(lookup(es, "error"@) is None);
                },
            }
        },
    }
}

} // verus!

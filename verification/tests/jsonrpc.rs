use fae::jsonrpc::json::{JsonValue, JsonNumber};
use fae::jsonrpc::payload::{parse_json_to_payload, payload_to_json, JsonRpcPayload, JsonRpcRequest,
    JsonRpcNotification, JsonRpcResponse, JsonRpcError, PayloadError};
use fae::jsonrpc::framing::{parse_header_line, frame_message, HeaderLine, FramingError};
use fae::jsonrpc::{ErrorCode, ErrorObject, Request, Response};

fn s(x: &str) -> JsonValue {
    JsonValue::Str(x.to_string())
}

fn n(x: u64) -> JsonValue {
    JsonValue::Number(JsonNumber::PosInt(x))
}

fn obj(fields: Vec<(&str, JsonValue)>) -> JsonValue {
    JsonValue::Object(fields.into_iter().map(|(k, v)| (k.to_string(), v)).collect())
}

fn get<'a>(v: &'a JsonValue, key: &str) -> Option<&'a JsonValue> {
    match v {
        JsonValue::Object(fields) => fields.iter().find(|(k, _)| k == key).map(|(_, v)| v),
        _ => None,
    }
}

fn key_value() -> JsonValue {
    obj(vec![("key", s("value"))])
}

fn nums(v: &[u64]) -> JsonValue {
    JsonValue::Array(v.iter().map(|x| n(*x)).collect())
}

fn is_str(v: Option<&JsonValue>, x: &str) -> bool {
    matches!(v, Some(JsonValue::Str(t)) if t == x)
}

fn is_num(v: Option<&JsonValue>, x: u64) -> bool {
    matches!(v, Some(JsonValue::Number(JsonNumber::PosInt(t))) if *t == x)
}

#[test]
fn test_parse_json_request() {
    let json = obj(vec![("jsonrpc", s("2.0")), ("id", n(1)), ("method", s("test_method")), ("params", key_value())]);
    match parse_json_to_payload(json).unwrap() {
        JsonRpcPayload::Request(req) => {
            assert_eq!(req.id, 1);
            assert_eq!(req.method, "test_method");
            assert!(is_str(get(req.params.as_ref().unwrap(), "key"), "value"));
        }
        _ => panic!("Expected Request payload"),
    }
}

#[test]
fn test_parse_json_notification() {
    let json = obj(vec![("jsonrpc", s("2.0")), ("method", s("notify_method")), ("params", nums(&[1, 2, 3]))]);
    match parse_json_to_payload(json).unwrap() {
        JsonRpcPayload::Notification(notif) => {
            assert_eq!(notif.method, "notify_method");
            assert!(matches!(notif.params, Some(JsonValue::Array(ref a)) if a.len() == 3));
        }
        _ => panic!("Expected Notification payload"),
    }
}

#[test]
fn test_parse_json_response_with_result() {
    let json = obj(vec![("jsonrpc", s("2.0")), ("id", n(42)), ("result", s("success"))]);
    match parse_json_to_payload(json).unwrap() {
        JsonRpcPayload::Response(resp) => {
            assert_eq!(resp.id, 42);
            assert!(is_str(resp.result.as_ref(), "success"));
            assert!(resp.error.is_none());
        }
        _ => panic!("Expected Response payload"),
    }
}

#[test]
fn test_parse_json_response_with_error() {
    let error = obj(vec![
        ("code", JsonValue::Number(JsonNumber::NegInt(-32601))),
        ("message", s("Method not found")),
        ("data", obj(vec![("method", s("unknown"))])),
    ]);
    let json = obj(vec![("jsonrpc", s("2.0")), ("id", n(42)), ("error", error)]);
    match parse_json_to_payload(json).unwrap() {
        JsonRpcPayload::Response(resp) => {
            assert_eq!(resp.id, 42);
            assert!(resp.result.is_none());
            let error = resp.error.unwrap();
            assert_eq!(error.code, -32601);
            assert_eq!(error.message, "Method not found");
            assert!(is_str(get(error.data.as_ref().unwrap(), "method"), "unknown"));
        }
        _ => panic!("Expected Response payload"),
    }
}

#[test]
fn test_payload_to_json_request() {
    let request = JsonRpcRequest { id: 1, method: "test_method".to_string(), params: Some(key_value()) };
    let json = payload_to_json(JsonRpcPayload::Request(request));
    assert!(is_str(get(&json, "jsonrpc"), "2.0"));
    assert!(is_num(get(&json, "id"), 1));
    assert!(is_str(get(&json, "method"), "test_method"));
    assert!(is_str(get(get(&json, "params").unwrap(), "key"), "value"));
}

#[test]
fn test_payload_to_json_notification() {
    let notification = JsonRpcNotification { method: "notify_method".to_string(), params: Some(nums(&[1, 2, 3])) };
    let json = payload_to_json(JsonRpcPayload::Notification(notification));
    assert!(is_str(get(&json, "jsonrpc"), "2.0"));
    assert!(is_str(get(&json, "method"), "notify_method"));
    assert!(matches!(get(&json, "params"), Some(JsonValue::Array(a)) if a.len() == 3));
    assert!(get(&json, "id").is_none());
}

#[test]
fn test_payload_to_json_response_with_result() {
    let response = JsonRpcResponse { id: 42, result: Some(s("success")), error: None };
    let json = payload_to_json(JsonRpcPayload::Response(response));
    assert!(is_str(get(&json, "jsonrpc"), "2.0"));
    assert!(is_num(get(&json, "id"), 42));
    assert!(is_str(get(&json, "result"), "success"));
    assert!(get(&json, "error").is_none());
}

#[test]
fn test_payload_to_json_response_with_error() {
    let response = JsonRpcResponse {
        id: 42,
        result: None,
        error: Some(JsonRpcError {
            code: -32601,
            message: "Method not found".to_string(),
            data: Some(obj(vec![("method", s("unknown"))])),
        }),
    };
    let json = payload_to_json(JsonRpcPayload::Response(response));
    assert!(is_str(get(&json, "jsonrpc"), "2.0"));
    assert!(is_num(get(&json, "id"), 42));
    assert!(get(&json, "result").is_none());
    let error = get(&json, "error").unwrap();
    assert!(matches!(get(error, "code"), Some(JsonValue::Number(JsonNumber::NegInt(-32601)))));
    assert!(is_str(get(error, "message"), "Method not found"));
    assert!(is_str(get(get(error, "data").unwrap(), "method"), "unknown"));
}

#[test]
fn test_parse_invalid_json() {
    assert_eq!(parse_json_to_payload(s("not an object")).unwrap_err(), PayloadError::NotAnObject);
}

#[test]
fn test_parse_missing_required_fields() {
    let json = obj(vec![("jsonrpc", s("2.0"))]);
    assert_eq!(parse_json_to_payload(json).unwrap_err(), PayloadError::InvalidStructure);
}

#[test]
fn payload_errors_by_field() {
    let bad_id = obj(vec![("id", s("1")), ("method", s("m"))]);
    assert_eq!(parse_json_to_payload(bad_id).unwrap_err(), PayloadError::RequestIdNotNumber);
    let bad_method = obj(vec![("id", n(1)), ("method", n(3))]);
    assert_eq!(parse_json_to_payload(bad_method).unwrap_err(), PayloadError::RequestMethodNotString);
    let bad_notif = obj(vec![("method", n(3))]);
    assert_eq!(parse_json_to_payload(bad_notif).unwrap_err(), PayloadError::NotificationMethodNotString);
    let bad_resp = obj(vec![("id", JsonValue::Number(JsonNumber::NegInt(-1)))]);
    assert_eq!(parse_json_to_payload(bad_resp).unwrap_err(), PayloadError::ResponseIdNotNumber);
    assert_eq!(PayloadError::InvalidStructure.message(), "Invalid JSON-RPC payload structure");
}

#[test]
fn malformed_error_objects_are_dropped() {
    let error = obj(vec![("code", s("x")), ("message", s("m"))]);
    let json = obj(vec![("id", n(1)), ("error", error)]);
    match parse_json_to_payload(json).unwrap() {
        JsonRpcPayload::Response(r) => assert!(r.error.is_none()),
        _ => panic!("Expected Response payload"),
    }
}

#[test]
fn test_round_trip_conversion() {
    let request = JsonRpcRequest { id: 42, method: "test_method".to_string(), params: Some(obj(vec![("data", nums(&[1, 2, 3]))])) };
    let parsed = parse_json_to_payload(payload_to_json(JsonRpcPayload::Request(request))).unwrap();
    match parsed {
        JsonRpcPayload::Request(r) => {
            assert_eq!(r.id, 42);
            assert_eq!(r.method, "test_method");
            assert!(matches!(get(r.params.as_ref().unwrap(), "data"), Some(JsonValue::Array(a)) if a.len() == 3));
        }
        _ => panic!("Expected Request payload"),
    }
    let response = JsonRpcResponse { id: 42, result: Some(s("success")), error: None };
    match parse_json_to_payload(payload_to_json(JsonRpcPayload::Response(response))).unwrap() {
        JsonRpcPayload::Response(r) => {
            assert_eq!(r.id, 42);
            assert!(is_str(r.result.as_ref(), "success"));
            assert!(r.error.is_none());
        }
        _ => panic!("Expected Response payload"),
    }
}

#[test]
fn header_lines() {
    assert_eq!(parse_header_line("Content-Length: 42\r\n").unwrap(), HeaderLine::ContentLength(42));
    assert_eq!(parse_header_line("\r\n").unwrap(), HeaderLine::Blank);
    assert!(matches!(parse_header_line("Content-Length: x\r\n"), Err(FramingError::InvalidContentLength)));
    assert!(matches!(parse_header_line("Content-Type: a\r\n"), Err(FramingError::ExpectedHeader(h)) if h == "Content-Type: a"));
}

#[test]
fn test_stdio_transport_message_format() {
    let json_str = "{\"id\":1,\"jsonrpc\":\"2.0\",\"method\":\"test\"}";
    let message = frame_message(json_str);
    assert!(message.starts_with("Content-Length: "));
    assert!(message.contains("\r\n\r\n"));
    assert!(message.ends_with(json_str));
    assert_eq!(message, format!("Content-Length: {}\r\n\r\n{}", json_str.len(), json_str));
    assert_eq!(frame_message("é"), "Content-Length: 2\r\n\r\né");
}

#[test]
fn error_codes_and_messages() {
    let e = ErrorObject::new(ErrorCode::MethodNotFound, None);
    assert_eq!(e.code, -32601);
    assert_eq!(e.message, "Method not found");
    assert_eq!(ErrorCode::ParseError.code(), -32700);
    assert_eq!(ErrorCode::InvalidRequest.message(), "Invalid Request");
    let r = Response::error(e, s("1"));
    assert!(r.result.is_none());
    assert_eq!(r.jsonrpc, "2.0");
    let ok = Response::success(n(19), n(1));
    assert!(ok.error.is_none());
    let notification = Request::new("update".to_string(), None, None);
    assert!(notification.is_notification());
    let request = Request::new("subtract".to_string(), None, Some(n(1)));
    assert!(!request.is_notification());
    let custom = ErrorObject::custom(7, "x".to_string(), None);
    assert_eq!(custom.code, 7);
}

//! JSON-RPC 2.0: message types, the mapping between payloads and JSON
//! objects, and the `Content-Length` framing of messages on a stream.

pub mod json;
pub mod payload;
pub mod framing;

use vstd::prelude::*;
use crate::jsonrpc::json::JsonValue;

verus! {

/// The predefined error codes.
#[derive(Debug, Clone, Copy, PartialEq, Eq, Structural)]
pub enum ErrorCode {
    ParseError,
    InvalidRequest,
    MethodNotFound,
    InvalidParams,
    InternalError,
}

/// The number of an error code.
pub open spec fn error_code_value(c: ErrorCode) -> i32 {
    match c {
        ErrorCode::ParseError => -32700i32,
        ErrorCode::InvalidRequest => -32600i32,
        ErrorCode::MethodNotFound => -32601i32,
        ErrorCode::InvalidParams => -32602i32,
        ErrorCode::InternalError => -32603i32,
    }
}

/// The standard message of an error code.
pub open spec fn error_code_message(c: ErrorCode) -> Seq<char> {
    match c {
        ErrorCode::ParseError => "Parse error"@,
        ErrorCode::InvalidRequest => "Invalid Request"@,
        ErrorCode::MethodNotFound => "Method not found"@,
        ErrorCode::InvalidParams => "Invalid params"@,
        ErrorCode::InternalError => "Internal error"@,
    }
}

impl ErrorCode {
    /// The standard message of the code.
    pub fn message(&self) -> (r: &'static str)
        ensures
            r@ == error_code_message(*self),
    {
        match self {
            ErrorCode::ParseError => "Parse error",
            ErrorCode::InvalidRequest => "Invalid Request",
            ErrorCode::MethodNotFound => "Method not found",
            ErrorCode::InvalidParams => "Invalid params",
            ErrorCode::InternalError => "Internal error",
        }
    }

    /// The number of the code.
    pub fn code(&self) -> (r: i32)
        ensures
            r == error_code_value(*self),
    {
        match self {
            ErrorCode::ParseError => -32700i32,
            ErrorCode::InvalidRequest => -32600i32,
            ErrorCode::MethodNotFound => -32601i32,
            ErrorCode::InvalidParams => -32602i32,
            ErrorCode::InternalError => -32603i32,
        }
    }
}

/// A request or, without id, a notification.
#[derive(Debug)]
pub struct Request {
    /// Always `2.0`.
    pub jsonrpc: String,
    pub method: String,
    pub params: Option<JsonValue>,
    pub id: Option<JsonValue>,
}

/// A response carrying a result or an error.
#[derive(Debug)]
pub struct Response {
    pub jsonrpc: String,
    pub result: Option<JsonValue>,
    pub error: Option<ErrorObject>,
    pub id: JsonValue,
}

/// The error of a response.
#[derive(Debug)]
pub struct ErrorObject {
    pub code: i32,
    pub message: String,
    pub data: Option<JsonValue>,
}

/// A request or a response.
#[derive(Debug)]
pub enum Message {
    Request(Request),
    Response(Response),
}

impl Request {
    /// A request of version `2.0`.
    pub fn new(method: String, params: Option<JsonValue>, id: Option<JsonValue>) -> (r: Request)
        ensures
            r.jsonrpc@ == "2.0"@,
            r.method == method,
            r.params == params,
            r.id == id,
    {
        Request { jsonrpc: "2.0".to_owned(), method, params, id }
    }

    /// Whether this is a notification: it has no id.
    pub fn is_notification(&self) -> (r: bool)
        ensures
            r == self.id is None,
    {
        self.id.is_none()
    }
}

impl Response {
    /// A successful response.
    pub fn success(result: JsonValue, id: JsonValue) -> (r: Response)
        ensures
            r.jsonrpc@ == "2.0"@,
            r.result == Some(result),
            r.error is None,
            r.id == id,
    {
        Response { jsonrpc: "2.0".to_owned(), result: Some(result), error: None, id }
    }

    /// A failed response.
    pub fn error(error: ErrorObject, id: JsonValue) -> (r: Response)
        ensures
            r.jsonrpc@ == "2.0"@,
            r.result is None,
            r.error == Some(error),
            r.id == id,
    {
        Response { jsonrpc: "2.0".to_owned(), result: None, error: Some(error), id }
    }
}

impl ErrorObject {
    /// The error of a predefined code, with its standard message.
    pub fn new(code: ErrorCode, data: Option<JsonValue>) -> (e: ErrorObject)
        ensures
            e.code == error_code_value(code),
            e.message@ == error_code_message(code),
            e.data == data,
    {
        ErrorObject { code: code.code(), message: code.message().to_owned(), data }
    }

    /// An error with any code and message.
    pub fn custom(code: i32, message: String, data: Option<JsonValue>) -> (e: ErrorObject)
        ensures
            e.code == code,
            e.message == message,
            e.data == data,
    {
        ErrorObject { code, message, data }
    }
}

} // verus!

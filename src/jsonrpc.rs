//! JSON-RPC 2.0 messages: requests, notifications and responses, the error
//! code table, and the classification of a decoded document into a message.
use vstd::prelude::*;

use crate::json::{find_member, lookup, text_member, JsonValue};

verus! {

/// The protocol version every message carries.
pub const JSONRPC_VERSION: &'static str = "2.0";

pub const PARSE_ERROR: i32 = -32700;
pub const INVALID_REQUEST: i32 = -32600;
pub const METHOD_NOT_FOUND: i32 = -32601;
pub const INVALID_PARAMS: i32 = -32602;
pub const INTERNAL_ERROR: i32 = -32603;

/// A request id: a string or an integer, echoed verbatim in the response.
#[derive(Debug, Clone, PartialEq, Eq)]
pub enum RequestId {
    String(String),
    Number(i64),
}

/// A request: answered by exactly one response.
#[derive(Debug)]
pub struct JsonRpcRequest {
    pub jsonrpc: String,
    pub id: RequestId,
    pub method: String,
    pub params: Option<JsonValue>,
}

/// A notification: never answered.
#[derive(Debug)]
pub struct JsonRpcNotification {
    pub jsonrpc: String,
    pub method: String,
    pub params: Option<JsonValue>,
}

/// The error object of an error response.
#[derive(Debug)]
pub struct JsonRpcError {
    pub code: i32,
    pub message: String,
    pub data: Option<JsonValue>,
}

/// A successful response.
#[derive(Debug)]
pub struct JsonRpcResultResponse {
    pub jsonrpc: String,
    pub id: RequestId,
    pub result: JsonValue,
}

/// An error response; the id is absent where it could not be determined.
#[derive(Debug)]
pub struct JsonRpcErrorResponse {
    pub jsonrpc: String,
    pub id: Option<RequestId>,
    pub error: JsonRpcError,
}

/// An incoming message.
#[derive(Debug)]
pub enum JsonRpcMessage {
    Request(JsonRpcRequest),
    Notification(JsonRpcNotification),
}

/// An outgoing response.
#[derive(Debug)]
pub enum JsonRpcResponse {
    Result(JsonRpcResultResponse),
    Error(JsonRpcErrorResponse),
}

/// Errors of the protocol layer.
#[derive(Debug)]
pub enum McpError {
    /// The input was not JSON.
    ParseError(String),
    InvalidRequest { message: String },
    MethodNotFound { method: String },
    InvalidParams { message: String },
    InternalError { message: String },
    ToolNotFound { name: String },
    /// Reading or writing the stream failed.
    Io(String),
    TransportClosed,
}

/// The JSON-RPC code of each protocol error; an unknown tool is invalid
/// params, and stream failures are internal errors.
pub open spec fn error_code(e: McpError) -> i32 {
    match e {
        McpError::ParseError(_) => PARSE_ERROR,
        McpError::InvalidRequest { .. } => INVALID_REQUEST,
        McpError::MethodNotFound { .. } => METHOD_NOT_FOUND,
        McpError::InvalidParams { .. } => INVALID_PARAMS,
        McpError::InternalError { .. } => INTERNAL_ERROR,
        McpError::ToolNotFound { .. } => INVALID_PARAMS,
        McpError::Io(_) => INTERNAL_ERROR,
        McpError::TransportClosed => INTERNAL_ERROR,
    }
}

impl McpError {
    /// The JSON-RPC error code that reports this error.
    pub fn json_rpc_code(&self) -> (r: i32)
        ensures
            r == error_code(*self),
    {
        match self {
            McpError::ParseError(_) => PARSE_ERROR,
            McpError::InvalidRequest { .. } => INVALID_REQUEST,
            McpError::MethodNotFound { .. } => METHOD_NOT_FOUND,
            McpError::InvalidParams { .. } => INVALID_PARAMS,
            McpError::InternalError { .. } => INTERNAL_ERROR,
            McpError::ToolNotFound { .. } => INVALID_PARAMS,
            McpError::Io(_) => INTERNAL_ERROR,
            McpError::TransportClosed => INTERNAL_ERROR,
        }
    }
}

/// A request id as plain values.
pub enum IdView {
    Text(Seq<char>),
    Number(i64),
}

pub open spec fn id_view(id: RequestId) -> IdView {
    match id {
        RequestId::String(s) => IdView::Text(s@),
        RequestId::Number(n) => IdView::Number(n),
    }
}

/// The id a JSON value denotes: a string or an integer within `i64`.
pub open spec fn id_from_json(v: JsonValue) -> Option<IdView> {
    match v {
        JsonValue::Str(s) => Some(IdView::Text(s@)),
        JsonValue::Int(n) => Some(IdView::Number(n)),
        _ => None,
    }
}

/// The params a member denotes: absent or null means none.
pub open spec fn params_from(p: Option<JsonValue>) -> Option<JsonValue> {
    match p {
        Some(JsonValue::Null) => None,
        other => other,
    }
}

/// Whether `doc` is a well-formed message: an object whose `jsonrpc` and
/// `method` members are strings and whose `id`, where present, is a string or
/// an integer.
pub open spec fn well_formed_message(doc: JsonValue) -> bool {
    match doc {
        JsonValue::Object(fields) => {
            &&& lookup(fields@, "jsonrpc"@) matches Some(JsonValue::Str(_))
            &&& lookup(fields@, "method"@) matches Some(JsonValue::Str(_))
            &&& match lookup(fields@, "id"@) {
                Some(i) => id_from_json(i) is Some,
                None => true,
            }
        },
        _ => false,
    }
}

/// The text of a string member.
pub open spec fn text_of(v: Option<JsonValue>) -> Seq<char> {
    match v {
        Some(JsonValue::Str(s)) => s@,
        _ => Seq::empty(),
    }
}

/// What `message_from_json` makes of a well-formed document.
pub open spec fn decoded_as(doc: JsonValue, m: JsonRpcMessage) -> bool {
    match doc {
        JsonValue::Object(fields) => {
            let version = text_of(lookup(fields@, "jsonrpc"@));
            let method = text_of(lookup(fields@, "method"@));
            let params = params_from(lookup(fields@, "params"@));
            match lookup(fields@, "id"@) {
                Some(i) => m matches JsonRpcMessage::Request(req) && req.jsonrpc@ == version
                    && req.method@ == method && req.params == params
                    && Some(id_view(req.id)) == id_from_json(i),
                None => m matches JsonRpcMessage::Notification(n) && n.jsonrpc@ == version
                    && n.method@ == method && n.params == params,
            }
        },
        _ => false,
    }
}

impl JsonRpcResultResponse {
    /// A successful response to `id`.
    pub fn new(id: RequestId, result: JsonValue) -> (r: Self)
        ensures
            r.jsonrpc@ == JSONRPC_VERSION@,
            r.id == id,
            r.result == result,
    {
        JsonRpcResultResponse { jsonrpc: JSONRPC_VERSION.to_owned(), id, result }
    }
}

impl JsonRpcErrorResponse {
    /// An error response with the given code and message, and no data.
    pub fn new(id: Option<RequestId>, code: i32, message: String) -> (r: Self)
        ensures
            r.jsonrpc@ == JSONRPC_VERSION@,
            r.id == id,
            r.error.code == code,
            r.error.message == message,
            r.error.data is None,
    {
        JsonRpcErrorResponse {
            jsonrpc: JSONRPC_VERSION.to_owned(),
            id,
            error: JsonRpcError { code, message, data: None },
        }
    }

    /// The input was not a well-formed message; the id is unknown.
    pub fn parse_error(message: String) -> (r: Self)
        ensures
            r.id is None,
            r.error.code == PARSE_ERROR,
            r.error.message == message,
    {
        Self::new(None, PARSE_ERROR, message)
    }

    /// The message is not a valid request.
    pub fn invalid_request(id: Option<RequestId>, message: String) -> (r: Self)
        ensures
            r.id == id,
            r.error.code == INVALID_REQUEST,
            r.error.message == message,
    {
        Self::new(id, INVALID_REQUEST, message)
    }

    /// No such method: the message reads "Method not found: " and the method.
    pub fn method_not_found(id: RequestId, method: &str) -> (r: Self)
        ensures
            r.id == Some(id),
            r.error.code == METHOD_NOT_FOUND,
            r.error.message@ == "Method not found: "@ + method@,
    {
        let mut message = "Method not found: ".to_owned();
        message.append(method);
        Self::new(Some(id), METHOD_NOT_FOUND, message)
    }

    /// The params are missing or unusable.
    pub fn invalid_params(id: RequestId, message: String) -> (r: Self)
        ensures
            r.id == Some(id),
            r.error.code == INVALID_PARAMS,
            r.error.message == message,
    {
        Self::new(Some(id), INVALID_PARAMS, message)
    }

    /// The server failed while handling the request.
    pub fn internal_error(id: RequestId, message: String) -> (r: Self)
        ensures
            r.id == Some(id),
            r.error.code == INTERNAL_ERROR,
            r.error.message == message,
    {
        Self::new(Some(id), INTERNAL_ERROR, message)
    }
}

/// Classifies a decoded document: with an `id` member it is a request, without
/// one a notification. A document that is not a well-formed message gives a
/// parse error carrying no id.
pub fn message_from_json(doc: JsonValue) -> (r: Result<JsonRpcMessage, JsonRpcErrorResponse>)
    ensures
        well_formed_message(doc) <==> r is Ok,
        r matches Ok(m) ==> decoded_as(doc, m),
        r matches Err(e) ==> e.id is None && e.error.code == PARSE_ERROR,
{
    let mut fields = match doc {
        JsonValue::Object(fields) => fields,
        _ => {
            return Err(JsonRpcErrorResponse::parse_error("Invalid message: not an object".to_owned()));
        },
    };
    let version = match text_member(&fields, "jsonrpc") {
        Some(v) => v,
        None => {
            return Err(JsonRpcErrorResponse::parse_error("Invalid message: missing jsonrpc".to_owned()));
        },
    };
    let method = match text_member(&fields, "method") {
        Some(m) => m,
        None => {
            return Err(JsonRpcErrorResponse::parse_error("Invalid message: missing method".to_owned()));
        },
    };
    let id: Option<RequestId> = match find_member(&fields, "id") {
        Some(i) => match &fields[i].1 {
            JsonValue::Str(s) => Some(RequestId::String(s.clone())),
            JsonValue::Int(n) => Some(RequestId::Number(*n)),
            _ => {
                return Err(JsonRpcErrorResponse::parse_error("Invalid message: bad id".to_owned()));
            },
        },
        None => None,
    };
    let params: Option<JsonValue> = match find_member(&fields, "params") {
        Some(i) => {
            let (_, p) = fields.swap_remove(i);
            match p {
                JsonValue::Null => None,
                other => Some(other),
            }
        },
        None => None,
    };
    match id {
        Some(id) => Ok(JsonRpcMessage::Request(JsonRpcRequest { jsonrpc: version, id, method, params })),
        None => Ok(JsonRpcMessage::Notification(JsonRpcNotification { jsonrpc: version, method, params })),
    }
}

} // verus!

//! The wire envelope (JSON-RPC 2.0), the internal operation messages, and the
//! correspondence between them and JSON values.

use vstd::prelude::*;
use crate::json::{field_of, JsonValue};

verus! {

/// Capability flags for tools.
#[derive(Debug, PartialEq)]
pub struct ToolsCapability {
    pub list_changed: Option<bool>,
}

/// Capability flags for resources.
#[derive(Debug, PartialEq)]
pub struct ResourcesCapability {
    pub list_changed: Option<bool>,
    pub subscribe: Option<bool>,
}

/// Capability flags for prompts.
#[derive(Debug, PartialEq)]
pub struct PromptsCapability {
    pub list_changed: Option<bool>,
}

/// The logging capability carries no flags; it is written as `{}`.
#[derive(Debug, PartialEq)]
pub struct LoggingCapability;

/// What a client announces that it supports.
#[derive(Debug, PartialEq)]
pub struct ClientCapabilities {
    pub tools: Option<ToolsCapability>,
    pub resources: Option<ResourcesCapability>,
    pub prompts: Option<PromptsCapability>,
    pub logging: Option<LoggingCapability>,
}

/// Name and version of a client.
#[derive(Debug, PartialEq)]
pub struct ClientInfo {
    pub name: String,
    pub version: String,
}

/// Parameters of an `initialize` request.
#[derive(Debug, PartialEq)]
pub struct InitializeParams {
    pub protocol_version: String,
    pub capabilities: ClientCapabilities,
    pub client_info: ClientInfo,
}

/// Parameters of a `tools/call` request: the operation and its arguments.
#[derive(Debug, PartialEq)]
pub struct ToolsCallParams {
    pub name: String,
    pub arguments: Option<JsonValue>,
}

/// The error member of a response.
#[derive(Debug, PartialEq)]
pub struct McpError {
    pub code: i32,
    pub message: String,
    pub data: Option<JsonValue>,
}

/// The wire envelope.
#[derive(Debug, PartialEq)]
pub enum JsonRpcMessage {
    Request { jsonrpc: String, id: Option<u64>, method: String, params: Option<JsonValue> },
    Response { jsonrpc: String, id: Option<u64>, result: Option<JsonValue>, error: Option<McpError> },
    Notification { jsonrpc: String, method: String, params: Option<JsonValue> },
}

/// The internal operation messages.
#[derive(Debug, PartialEq)]
pub enum McpMessage {
    Initialize { id: u64, params: InitializeParams },
    ToolsList { id: u64 },
    ToolsCall { id: u64, params: ToolsCallParams },
    Notification { method: String, params: Option<JsonValue> },
    Response { id: u64, result: Option<JsonValue>, error: Option<McpError> },
}

/// Why a JSON value is no envelope.
#[derive(Debug, Clone, Copy, PartialEq, Eq, Structural)]
pub enum FramingError {
    NotAnObject,
    MissingVersion,
    InvalidMethod,
    InvalidId,
    InvalidError,
}

/// Why an envelope is no internal message.
#[derive(Debug, PartialEq)]
pub enum ProtocolError {
    MissingId,
    UnknownMethod(String),
    MissingParams,
    InvalidParams,
}

/// Why a JSON value is no internal message.
#[derive(Debug, PartialEq)]
pub enum CodecError {
    Framing(FramingError),
    Protocol(ProtocolError),
}

// ---------------------------------------------------------------------------
// Reading JSON values as the protocol's types

/// An optional flag: absent or `null` is `None`; a non-boolean is refused.
pub open spec fn opt_bool_of(f: Option<JsonValue>) -> Option<Option<bool>> {
    match f {
        None => Some(None),
        Some(JsonValue::Null) => Some(None),
        Some(JsonValue::Bool(b)) => Some(Some(b)),
        _ => None,
    }
}

/// A required string.
pub open spec fn text_of(f: Option<JsonValue>) -> Option<String> {
    match f {
        Some(JsonValue::Str(s)) => Some(s),
        _ => None,
    }
}

/// An id: an unsigned integer, or `null` for none.
pub open spec fn id_of(v: JsonValue) -> Option<Option<u64>> {
    match v {
        JsonValue::UInt(n) => Some(Some(n)),
        JsonValue::Null => Some(None),
        _ => None,
    }
}

/// An error code that fits in `i32`.
pub open spec fn code_of(f: Option<JsonValue>) -> Option<i32> {
    match f {
        Some(JsonValue::UInt(n)) => if n <= i32::MAX { Some(n as i32) } else { None },
        Some(JsonValue::Int(n)) => if i32::MIN <= n <= i32::MAX { Some(n as i32) } else { None },
        _ => None,
    }
}

pub open spec fn tools_capability_of(v: JsonValue) -> Option<ToolsCapability> {
    match v {
        JsonValue::Object(f) => match opt_bool_of(field_of(f@, "list_changed"@)) {
            Some(lc) => Some(ToolsCapability { list_changed: lc }),
            None => None,
        },
        _ => None,
    }
}

pub open spec fn resources_capability_of(v: JsonValue) -> Option<ResourcesCapability> {
    match v {
        JsonValue::Object(f) => match (
            opt_bool_of(field_of(f@, "list_changed"@)),
            opt_bool_of(field_of(f@, "subscribe"@)),
        ) {
            (Some(lc), Some(sub)) => Some(ResourcesCapability { list_changed: lc, subscribe: sub }),
            _ => None,
        },
        _ => None,
    }
}

pub open spec fn prompts_capability_of(v: JsonValue) -> Option<PromptsCapability> {
    match v {
        JsonValue::Object(f) => match opt_bool_of(field_of(f@, "list_changed"@)) {
            Some(lc) => Some(PromptsCapability { list_changed: lc }),
            None => None,
        },
        _ => None,
    }
}

pub open spec fn logging_capability_of(v: JsonValue) -> Option<LoggingCapability> {
    match v {
        JsonValue::Object(_) => Some(LoggingCapability),
        _ => None,
    }
}

/// An optional member: absent or `null` is `None`, anything else must read as the member's type.
pub open spec fn opt_tools_of(f: Option<JsonValue>) -> Option<Option<ToolsCapability>> {
    match f {
        None => Some(None),
        Some(JsonValue::Null) => Some(None),
        Some(v) => match tools_capability_of(v) {
            Some(t) => Some(Some(t)),
            None => None,
        },
    }
}

pub open spec fn opt_resources_of(f: Option<JsonValue>) -> Option<Option<ResourcesCapability>> {
    match f {
        None => Some(None),
        Some(JsonValue::Null) => Some(None),
        Some(v) => match resources_capability_of(v) {
            Some(t) => Some(Some(t)),
            None => None,
        },
    }
}

pub open spec fn opt_prompts_of(f: Option<JsonValue>) -> Option<Option<PromptsCapability>> {
    match f {
        None => Some(None),
        Some(JsonValue::Null) => Some(None),
        Some(v) => match prompts_capability_of(v) {
            Some(t) => Some(Some(t)),
            None => None,
        },
    }
}

pub open spec fn opt_logging_of(f: Option<JsonValue>) -> Option<Option<LoggingCapability>> {
    match f {
        None => Some(None),
        Some(JsonValue::Null) => Some(None),
        Some(v) => match logging_capability_of(v) {
            Some(t) => Some(Some(t)),
            None => None,
        },
    }
}

pub open spec fn capabilities_of(v: JsonValue) -> Option<ClientCapabilities> {
    match v {
        JsonValue::Object(f) => match (
            opt_tools_of(field_of(f@, "tools"@)),
            opt_resources_of(field_of(f@, "resources"@)),
            opt_prompts_of(field_of(f@, "prompts"@)),
            opt_logging_of(field_of(f@, "logging"@)),
        ) {
            (Some(t), Some(r), Some(p), Some(l)) => Some(
                ClientCapabilities { tools: t, resources: r, prompts: p, logging: l },
            ),
            _ => None,
        },
        _ => None,
    }
}

pub open spec fn client_info_of(v: JsonValue) -> Option<ClientInfo> {
    match v {
        JsonValue::Object(f) => match (text_of(field_of(f@, "name"@)), text_of(field_of(f@, "version"@))) {
            (Some(n), Some(ver)) => Some(ClientInfo { name: n, version: ver }),
            _ => None,
        },
        _ => None,
    }
}

pub open spec fn initialize_params_of(v: JsonValue) -> Option<InitializeParams> {
    match v {
        JsonValue::Object(f) => match (
            text_of(field_of(f@, "protocol_version"@)),
            field_of(f@, "capabilities"@),
            field_of(f@, "client_info"@),
        ) {
            (Some(pv), Some(c), Some(ci)) => match (capabilities_of(c), client_info_of(ci)) {
                (Some(caps), Some(info)) => Some(
                    InitializeParams { protocol_version: pv, capabilities: caps, client_info: info },
                ),
                _ => None,
            },
            _ => None,
        },
        _ => None,
    }
}

/// Call parameters: a required name; the arguments, when present, are kept as they are.
pub open spec fn call_params_of(v: JsonValue) -> Option<ToolsCallParams> {
    match v {
        JsonValue::Object(f) => match text_of(field_of(f@, "name"@)) {
            Some(n) => Some(ToolsCallParams { name: n, arguments: field_of(f@, "arguments"@) }),
            None => None,
        },
        _ => None,
    }
}

pub open spec fn mcp_error_of(v: JsonValue) -> Option<McpError> {
    match v {
        JsonValue::Object(f) => match (code_of(field_of(f@, "code"@)), text_of(field_of(f@, "message"@))) {
            (Some(c), Some(m)) => Some(McpError { code: c, message: m, data: field_of(f@, "data"@) }),
            _ => None,
        },
        _ => None,
    }
}

pub open spec fn opt_error_of(f: Option<JsonValue>) -> Option<Option<McpError>> {
    match f {
        None => Some(None),
        Some(JsonValue::Null) => Some(None),
        Some(v) => match mcp_error_of(v) {
            Some(t) => Some(Some(t)),
            None => None,
        },
    }
}

/// The envelope a JSON value stands for. An object with a `method` is a
/// request when it has an `id` member (possibly `null`) and a notification
/// otherwise; an object without `method` is a response.
pub open spec fn envelope_of(v: JsonValue) -> Result<JsonRpcMessage, FramingError> {
    match v {
        JsonValue::Object(f) => match text_of(field_of(f@, "jsonrpc"@)) {
            None => Err(FramingError::MissingVersion),
            Some(jsonrpc) => match field_of(f@, "method"@) {
                Some(JsonValue::Str(method)) => {
                    let params = field_of(f@, "params"@);
                    match field_of(f@, "id"@) {
                        None => Ok(JsonRpcMessage::Notification { jsonrpc, method, params }),
                        Some(idv) => match id_of(idv) {
                            Some(id) => Ok(JsonRpcMessage::Request { jsonrpc, id, method, params }),
                            None => Err(FramingError::InvalidId),
                        },
                    }
                },
                Some(_) => Err(FramingError::InvalidMethod),
                None => {
                    let id = match field_of(f@, "id"@) {
                        None => Some(None),
                        Some(idv) => id_of(idv),
                    };
                    match (id, opt_error_of(field_of(f@, "error"@))) {
                        (None, _) => Err(FramingError::InvalidId),
                        (_, None) => Err(FramingError::InvalidError),
                        (Some(id), Some(error)) => Ok(
                            JsonRpcMessage::Response { jsonrpc, id, result: field_of(f@, "result"@), error },
                        ),
                    }
                },
            },
        },
        _ => Err(FramingError::NotAnObject),
    }
}

/// The protocol version an envelope carries.
pub open spec fn version_of(e: JsonRpcMessage) -> String {
    match e {
        JsonRpcMessage::Request { jsonrpc, .. } => jsonrpc,
        JsonRpcMessage::Response { jsonrpc, .. } => jsonrpc,
        JsonRpcMessage::Notification { jsonrpc, .. } => jsonrpc,
    }
}

/// The envelope that stands for message `m`: a request with the message's
/// id, method name and parameters, a notification with the same method and
/// parameters, or a response with the same id, result and error.
pub open spec fn envelope_shape(m: McpMessage, e: JsonRpcMessage) -> bool {
    match m {
        McpMessage::Initialize { id, params } => e matches JsonRpcMessage::Request { id: eid, method, params: p, .. }
            && eid == Some(id) && method@ == "initialize"@ && (p matches Some(pv) && initialize_params_of(pv) == Some(params)),
        McpMessage::ToolsList { id } => e matches JsonRpcMessage::Request { id: eid, method, params: p, .. }
            && eid == Some(id) && method@ == "tools/list"@ && p is None,
        McpMessage::ToolsCall { id, params } => e matches JsonRpcMessage::Request { id: eid, method, params: p, .. }
            && eid == Some(id) && method@ == "tools/call"@ && (p matches Some(pv) && call_params_of(pv) == Some(params)),
        McpMessage::Notification { method, params } => e matches JsonRpcMessage::Notification { method: em, params: ep, .. }
            && em == method && ep == params,
        McpMessage::Response { id, result, error } => e matches JsonRpcMessage::Response { id: eid, result: er, error: ee, .. }
            && eid == Some(id) && er == result && ee == error,
    }
}

/// The internal message an envelope stands for.
pub open spec fn message_of_envelope(e: JsonRpcMessage) -> Result<McpMessage, ProtocolError> {
    match e {
        JsonRpcMessage::Request { id, method, params, .. } => match id {
            None => Err(ProtocolError::MissingId),
            Some(id) => if method@ == "initialize"@ {
                match params {
                    None => Err(ProtocolError::MissingParams),
                    Some(p) => match initialize_params_of(p) {
                        Some(ip) => Ok(McpMessage::Initialize { id, params: ip }),
                        None => Err(ProtocolError::InvalidParams),
                    },
                }
            } else if method@ == "tools/list"@ {
                Ok(McpMessage::ToolsList { id })
            } else if method@ == "tools/call"@ {
                match params {
                    None => Err(ProtocolError::MissingParams),
                    Some(p) => match call_params_of(p) {
                        Some(cp) => Ok(McpMessage::ToolsCall { id, params: cp }),
                        None => Err(ProtocolError::InvalidParams),
                    },
                }
            } else {
                Err(ProtocolError::UnknownMethod(method))
            },
        },
        JsonRpcMessage::Response { id, result, error, .. } => match id {
            None => Err(ProtocolError::MissingId),
            Some(id) => Ok(McpMessage::Response { id, result, error }),
        },
        JsonRpcMessage::Notification { method, params, .. } => Ok(McpMessage::Notification { method, params }),
    }
}

/// The internal message a JSON value stands for.
pub open spec fn message_of(v: JsonValue) -> Result<McpMessage, CodecError> {
    match envelope_of(v) {
        Err(e) => Err(CodecError::Framing(e)),
        Ok(env) => match message_of_envelope(env) {
            Err(e) => Err(CodecError::Protocol(e)),
            Ok(m) => Ok(m),
        },
    }
}

} // verus!

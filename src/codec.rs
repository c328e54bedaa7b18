//! Reading and writing the protocol's types as JSON values.

use vstd::prelude::*;
use crate::json::{field_of, put_field, put_optional, take_field, JsonValue};
use crate::protocol::{
    call_params_of, capabilities_of, client_info_of, code_of, envelope_of, id_of,
    envelope_shape, initialize_params_of, logging_capability_of, mcp_error_of, message_of, message_of_envelope,
    opt_bool_of, opt_error_of, opt_logging_of, opt_prompts_of, opt_resources_of, opt_tools_of, prompts_capability_of, resources_capability_of, text_of,
    tools_capability_of, version_of, ClientCapabilities, ClientInfo, CodecError, FramingError,
    InitializeParams, JsonRpcMessage, LoggingCapability, McpError, McpMessage,
    PromptsCapability, ProtocolError, ResourcesCapability, ToolsCallParams, ToolsCapability,
};
use crate::text::{owned, same_text};

verus! {

fn read_opt_bool(f: Option<JsonValue>) -> (r: Option<Option<bool>>)
    ensures
        r == opt_bool_of(f),
{
    match f {
        None => Some(None),
        Some(JsonValue::Null) => Some(None),
        Some(JsonValue::Bool(b)) => Some(Some(b)),
        _ => None,
    }
}

fn read_text(f: Option<JsonValue>) -> (r: Option<String>)
    ensures
        r == text_of(f),
{
    match f {
        Some(JsonValue::Str(s)) => Some(s),
        _ => None,
    }
}

fn read_code(f: Option<JsonValue>) -> (r: Option<i32>)
    ensures
        r == code_of(f),
{
    match f {
        Some(JsonValue::UInt(n)) => if n <= i32::MAX as u64 { Some(n as i32) } else { None },
        Some(JsonValue::Int(n)) => if i32::MIN as i64 <= n && n <= i32::MAX as i64 { Some(n as i32) } else { None },
        _ => None,
    }
}

fn read_id(v: JsonValue) -> (r: Option<Option<u64>>)
    ensures
        r == id_of(v),
{
    match v {
        JsonValue::UInt(n) => Some(Some(n)),
        JsonValue::Null => Some(None),
        _ => None,
    }
}

fn opt_bool_value(b: Option<bool>) -> (r: JsonValue)
    ensures
        opt_bool_of(Some(r)) == Some(b),
{
    match b {
        Some(b) => JsonValue::Bool(b),
        None => JsonValue::Null,
    }
}

pub fn read_tools_capability(v: JsonValue) -> (r: Option<ToolsCapability>)
    ensures
        r == tools_capability_of(v),
{
    match v {
        JsonValue::Object(mut f) => match read_opt_bool(take_field(&mut f, "list_changed")) {
            Some(lc) => Some(ToolsCapability { list_changed: lc }),
            None => None,
        },
        _ => None,
    }
}

pub fn write_tools_capability(c: ToolsCapability) -> (r: JsonValue)
    ensures
        tools_capability_of(r) == Some(c),
{
    let mut f: Vec<(String, JsonValue)> = Vec::new();
    put_field(&mut f, "list_changed", opt_bool_value(c.list_changed));
    proof {
        reveal_with_fuel(field_of, 2);
    }
    JsonValue::Object(f)
}

pub fn read_resources_capability(v: JsonValue) -> (r: Option<ResourcesCapability>)
    ensures
        r == resources_capability_of(v),
{
    proof {
        reveal_strlit("list_changed");
        reveal_strlit("subscribe");
        assert("list_changed"@[0] != "subscribe"@[0]);
    }
    match v {
        JsonValue::Object(mut f) => {
            let lc = read_opt_bool(take_field(&mut f, "list_changed"));
            let sub = read_opt_bool(take_field(&mut f, "subscribe"));
            match (lc, sub) {
                (Some(lc), Some(sub)) => Some(ResourcesCapability { list_changed: lc, subscribe: sub }),
                _ => None,
            }
        },
        _ => None,
    }
}

pub fn write_resources_capability(c: ResourcesCapability) -> (r: JsonValue)
    ensures
        resources_capability_of(r) == Some(c),
{
    proof {
        reveal_strlit("list_changed");
        reveal_strlit("subscribe");
        assert("list_changed"@[0] != "subscribe"@[0]);
    }
    let mut f: Vec<(String, JsonValue)> = Vec::new();
    put_field(&mut f, "list_changed", opt_bool_value(c.list_changed));
    put_field(&mut f, "subscribe", opt_bool_value(c.subscribe));
    proof {
        reveal_with_fuel(field_of, 3);
    }
    JsonValue::Object(f)
}

pub fn read_prompts_capability(v: JsonValue) -> (r: Option<PromptsCapability>)
    ensures
        r == prompts_capability_of(v),
{
    match v {
        JsonValue::Object(mut f) => match read_opt_bool(take_field(&mut f, "list_changed")) {
            Some(lc) => Some(PromptsCapability { list_changed: lc }),
            None => None,
        },
        _ => None,
    }
}

pub fn write_prompts_capability(c: PromptsCapability) -> (r: JsonValue)
    ensures
        prompts_capability_of(r) == Some(c),
{
    let mut f: Vec<(String, JsonValue)> = Vec::new();
    put_field(&mut f, "list_changed", opt_bool_value(c.list_changed));
    proof {
        reveal_with_fuel(field_of, 2);
    }
    JsonValue::Object(f)
}

/// The member names of the protocol's objects differ from each other.
proof fn lemma_member_names()
    ensures
        "tools"@ != "resources"@, "tools"@ != "prompts"@, "tools"@ != "logging"@,
        "resources"@ != "prompts"@, "resources"@ != "logging"@, "prompts"@ != "logging"@,
        "name"@ != "version"@, "name"@ != "arguments"@,
        "protocol_version"@ != "capabilities"@, "protocol_version"@ != "client_info"@,
        "capabilities"@ != "client_info"@,
        "code"@ != "message"@, "code"@ != "data"@, "message"@ != "data"@,
        "jsonrpc"@ != "method"@, "jsonrpc"@ != "params"@, "jsonrpc"@ != "id"@,
        "jsonrpc"@ != "result"@, "jsonrpc"@ != "error"@,
        "method"@ != "params"@, "method"@ != "id"@, "method"@ != "result"@, "method"@ != "error"@,
        "params"@ != "id"@, "id"@ != "result"@, "id"@ != "error"@, "result"@ != "error"@,
{
    reveal_strlit("tools");
    reveal_strlit("resources");
    reveal_strlit("prompts");
    reveal_strlit("logging");
    reveal_strlit("name");
    reveal_strlit("version");
    reveal_strlit("arguments");
    reveal_strlit("protocol_version");
    reveal_strlit("capabilities");
    reveal_strlit("client_info");
    reveal_strlit("code");
    reveal_strlit("message");
    reveal_strlit("data");
    reveal_strlit("jsonrpc");
    reveal_strlit("method");
    reveal_strlit("params");
    reveal_strlit("id");
    reveal_strlit("result");
    reveal_strlit("error");
    assert("tools"@[0] != "resources"@[0]);
    assert("tools"@[0] != "prompts"@[0]);
    assert("tools"@[0] != "logging"@[0]);
    assert("resources"@[0] != "prompts"@[0]);
    assert("resources"@[0] != "logging"@[0]);
    assert("prompts"@[0] != "logging"@[0]);
    assert("name"@[0] != "version"@[0]);
    assert("name"@[0] != "arguments"@[0]);
    assert("protocol_version"@[0] != "capabilities"@[0]);
    assert("protocol_version"@[0] != "client_info"@[0]);
    assert("capabilities"@[1] != "client_info"@[1]);
    assert("code"@[0] != "message"@[0]);
    assert("code"@[0] != "data"@[0]);
    assert("message"@[0] != "data"@[0]);
    assert("jsonrpc"@[0] != "method"@[0]);
    assert("jsonrpc"@[0] != "params"@[0]);
    assert("jsonrpc"@[0] != "id"@[0]);
    assert("jsonrpc"@[0] != "result"@[0]);
    assert("jsonrpc"@[0] != "error"@[0]);
    assert("method"@[0] != "params"@[0]);
    assert("method"@[0] != "id"@[0]);
    assert("method"@[0] != "result"@[0]);
    assert("method"@[0] != "error"@[0]);
    assert("params"@[0] != "id"@[0]);
    assert("id"@[0] != "result"@[0]);
    assert("id"@[0] != "error"@[0]);
    assert("result"@[0] != "error"@[0]);
}

pub fn read_logging_capability(v: JsonValue) -> (r: Option<LoggingCapability>)
    ensures
        r == logging_capability_of(v),
{
    match v {
        JsonValue::Object(_) => Some(LoggingCapability),
        _ => None,
    }
}

pub fn write_logging_capability(c: LoggingCapability) -> (r: JsonValue)
    ensures
        logging_capability_of(r) == Some(c),
{
    JsonValue::Object(Vec::new())
}

fn read_opt_tools(f: Option<JsonValue>) -> (r: Option<Option<ToolsCapability>>)
    ensures
        r == opt_tools_of(f),
{
    match f {
        None => Some(None),
        Some(JsonValue::Null) => Some(None),
        Some(v) => match read_tools_capability(v) {
            Some(t) => Some(Some(t)),
            None => None,
        },
    }
}

fn read_opt_resources(f: Option<JsonValue>) -> (r: Option<Option<ResourcesCapability>>)
    ensures
        r == opt_resources_of(f),
{
    match f {
        None => Some(None),
        Some(JsonValue::Null) => Some(None),
        Some(v) => match read_resources_capability(v) {
            Some(t) => Some(Some(t)),
            None => None,
        },
    }
}

fn read_opt_prompts(f: Option<JsonValue>) -> (r: Option<Option<PromptsCapability>>)
    ensures
        r == opt_prompts_of(f),
{
    match f {
        None => Some(None),
        Some(JsonValue::Null) => Some(None),
        Some(v) => match read_prompts_capability(v) {
            Some(t) => Some(Some(t)),
            None => None,
        },
    }
}

fn read_opt_logging(f: Option<JsonValue>) -> (r: Option<Option<LoggingCapability>>)
    ensures
        r == opt_logging_of(f),
{
    match f {
        None => Some(None),
        Some(JsonValue::Null) => Some(None),
        Some(v) => match read_logging_capability(v) {
            Some(t) => Some(Some(t)),
            None => None,
        },
    }
}

fn read_opt_error(f: Option<JsonValue>) -> (r: Option<Option<McpError>>)
    ensures
        r == opt_error_of(f),
{
    match f {
        None => Some(None),
        Some(JsonValue::Null) => Some(None),
        Some(v) => match read_mcp_error(v) {
            Some(t) => Some(Some(t)),
            None => None,
        },
    }
}

pub fn read_capabilities(v: JsonValue) -> (r: Option<ClientCapabilities>)
    ensures
        r == capabilities_of(v),
{
    proof {
        lemma_member_names();
    }
    match v {
        JsonValue::Object(mut f) => {
            let t = read_opt_tools(take_field(&mut f, "tools"));
            let r = read_opt_resources(take_field(&mut f, "resources"));
            let p = read_opt_prompts(take_field(&mut f, "prompts"));
            let l = read_opt_logging(take_field(&mut f, "logging"));
            match (t, r, p, l) {
                (Some(t), Some(r), Some(p), Some(l)) => Some(
                    ClientCapabilities { tools: t, resources: r, prompts: p, logging: l },
                ),
                _ => None,
            }
        },
        _ => None,
    }
}

pub fn write_capabilities(c: ClientCapabilities) -> (r: JsonValue)
    ensures
        capabilities_of(r) == Some(c),
{
    proof {
        lemma_member_names();
    }
    let mut f: Vec<(String, JsonValue)> = Vec::new();
    let t = match c.tools {
        Some(x) => write_tools_capability(x),
        None => JsonValue::Null,
    };
    let r = match c.resources {
        Some(x) => write_resources_capability(x),
        None => JsonValue::Null,
    };
    let p = match c.prompts {
        Some(x) => write_prompts_capability(x),
        None => JsonValue::Null,
    };
    let l = match c.logging {
        Some(x) => write_logging_capability(x),
        None => JsonValue::Null,
    };
    put_field(&mut f, "tools", t);
    put_field(&mut f, "resources", r);
    put_field(&mut f, "prompts", p);
    put_field(&mut f, "logging", l);
    proof {
        reveal_with_fuel(field_of, 5);
    }
    JsonValue::Object(f)
}

pub fn read_client_info(v: JsonValue) -> (r: Option<ClientInfo>)
    ensures
        r == client_info_of(v),
{
    proof {
        lemma_member_names();
    }
    match v {
        JsonValue::Object(mut f) => {
            let n = read_text(take_field(&mut f, "name"));
            let ver = read_text(take_field(&mut f, "version"));
            match (n, ver) {
                (Some(n), Some(ver)) => Some(ClientInfo { name: n, version: ver }),
                _ => None,
            }
        },
        _ => None,
    }
}

pub fn write_client_info(c: ClientInfo) -> (r: JsonValue)
    ensures
        client_info_of(r) == Some(c),
{
    proof {
        lemma_member_names();
    }
    let mut f: Vec<(String, JsonValue)> = Vec::new();
    put_field(&mut f, "name", JsonValue::Str(c.name));
    put_field(&mut f, "version", JsonValue::Str(c.version));
    proof {
        reveal_with_fuel(field_of, 3);
    }
    JsonValue::Object(f)
}

pub fn read_initialize_params(v: JsonValue) -> (r: Option<InitializeParams>)
    ensures
        r == initialize_params_of(v),
{
    proof {
        lemma_member_names();
    }
    match v {
        JsonValue::Object(mut f) => {
            let pv = read_text(take_field(&mut f, "protocol_version"));
            let c = take_field(&mut f, "capabilities");
            let ci = take_field(&mut f, "client_info");
            match (pv, c, ci) {
                (Some(pv), Some(c), Some(ci)) => match (read_capabilities(c), read_client_info(ci)) {
                    (Some(caps), Some(info)) => Some(
                        InitializeParams { protocol_version: pv, capabilities: caps, client_info: info },
                    ),
                    _ => None,
                },
                _ => None,
            }
        },
        _ => None,
    }
}

pub fn write_initialize_params(p: InitializeParams) -> (r: JsonValue)
    ensures
        initialize_params_of(r) == Some(p),
{
    proof {
        lemma_member_names();
    }
    let mut f: Vec<(String, JsonValue)> = Vec::new();
    put_field(&mut f, "protocol_version", JsonValue::Str(p.protocol_version));
    put_field(&mut f, "capabilities", write_capabilities(p.capabilities));
    put_field(&mut f, "client_info", write_client_info(p.client_info));
    proof {
        reveal_with_fuel(field_of, 4);
    }
    JsonValue::Object(f)
}

pub fn read_call_params(v: JsonValue) -> (r: Option<ToolsCallParams>)
    ensures
        r == call_params_of(v),
{
    proof {
        lemma_member_names();
    }
    match v {
        JsonValue::Object(mut f) => {
            let n = read_text(take_field(&mut f, "name"));
            let a = take_field(&mut f, "arguments");
            match n {
                Some(n) => Some(ToolsCallParams { name: n, arguments: a }),
                None => None,
            }
        },
        _ => None,
    }
}

pub fn write_call_params(p: ToolsCallParams) -> (r: JsonValue)
    ensures
        call_params_of(r) == Some(p),
{
    proof {
        lemma_member_names();
    }
    let mut f: Vec<(String, JsonValue)> = Vec::new();
    put_field(&mut f, "name", JsonValue::Str(p.name));
    put_optional(&mut f, "arguments", p.arguments);
    proof {
        reveal_with_fuel(field_of, 3);
    }
    JsonValue::Object(f)
}

pub fn read_mcp_error(v: JsonValue) -> (r: Option<McpError>)
    ensures
        r == mcp_error_of(v),
{
    proof {
        lemma_member_names();
    }
    match v {
        JsonValue::Object(mut f) => {
            let c = read_code(take_field(&mut f, "code"));
            let m = read_text(take_field(&mut f, "message"));
            let d = take_field(&mut f, "data");
            match (c, m) {
                (Some(c), Some(m)) => Some(McpError { code: c, message: m, data: d }),
                _ => None,
            }
        },
        _ => None,
    }
}

pub fn write_mcp_error(e: McpError) -> (r: JsonValue)
    ensures
        mcp_error_of(r) == Some(e),
{
    proof {
        lemma_member_names();
    }
    let mut f: Vec<(String, JsonValue)> = Vec::new();
    let code = if e.code >= 0 {
        JsonValue::UInt(e.code as u64)
    } else {
        JsonValue::Int(e.code as i64)
    };
    put_field(&mut f, "code", code);
    put_field(&mut f, "message", JsonValue::Str(e.message));
    put_optional(&mut f, "data", e.data);
    proof {
        reveal_with_fuel(field_of, 4);
    }
    JsonValue::Object(f)
}

impl JsonRpcMessage {
    /// Reads an envelope from a JSON value.
    pub fn from_json_value(value: JsonValue) -> (r: Result<JsonRpcMessage, FramingError>)
        ensures
            r == envelope_of(value),
    {
        proof {
            lemma_member_names();
        }
        match value {
            JsonValue::Object(mut f) => match read_text(take_field(&mut f, "jsonrpc")) {
                None => Err(FramingError::MissingVersion),
                Some(jsonrpc) => {
                    let method = take_field(&mut f, "method");
                    let idv = take_field(&mut f, "id");
                    match method {
                        Some(JsonValue::Str(method)) => {
                            let params = take_field(&mut f, "params");
                            match idv {
                                None => Ok(JsonRpcMessage::Notification { jsonrpc, method, params }),
                                Some(idv) => match read_id(idv) {
                                    Some(id) => Ok(JsonRpcMessage::Request { jsonrpc, id, method, params }),
                                    None => Err(FramingError::InvalidId),
                                },
                            }
                        },
                        Some(_) => Err(FramingError::InvalidMethod),
                        None => {
                            let id = match idv {
                                None => Some(None),
                                Some(idv) => read_id(idv),
                            };
                            let error = read_opt_error(take_field(&mut f, "error"));
                            let result = take_field(&mut f, "result");
                            match (id, error) {
                                (None, _) => Err(FramingError::InvalidId),
                                (_, None) => Err(FramingError::InvalidError),
                                (Some(id), Some(error)) => Ok(
                                    JsonRpcMessage::Response { jsonrpc, id, result, error },
                                ),
                            }
                        },
                    }
                },
            },
            _ => Err(FramingError::NotAnObject),
        }
    }

    /// Writes an envelope as a JSON value; reading it back gives the envelope.
    pub fn to_json_value(self) -> (r: JsonValue)
        ensures
            envelope_of(r) == Ok::<JsonRpcMessage, FramingError>(self),
    {
        proof {
            lemma_member_names();
        }
        let mut f: Vec<(String, JsonValue)> = Vec::new();
        match self {
            JsonRpcMessage::Request { jsonrpc, id, method, params } => {
                put_field(&mut f, "jsonrpc", JsonValue::Str(jsonrpc));
                put_field(&mut f, "method", JsonValue::Str(method));
                let idv = match id {
                    Some(n) => JsonValue::UInt(n),
                    None => JsonValue::Null,
                };
                put_field(&mut f, "id", idv);
                put_optional(&mut f, "params", params);
                proof {
                    reveal_with_fuel(field_of, 5);
                }
            },
            JsonRpcMessage::Notification { jsonrpc, method, params } => {
                put_field(&mut f, "jsonrpc", JsonValue::Str(jsonrpc));
                put_field(&mut f, "method", JsonValue::Str(method));
                put_optional(&mut f, "params", params);
                proof {
                    reveal_with_fuel(field_of, 4);
                }
            },
            JsonRpcMessage::Response { jsonrpc, id, result, error } => {
                put_field(&mut f, "jsonrpc", JsonValue::Str(jsonrpc));
                let idv = match id {
                    Some(n) => JsonValue::UInt(n),
                    None => JsonValue::Null,
                };
                put_field(&mut f, "id", idv);
                put_optional(&mut f, "result", result);
                let ev = match error {
                    Some(e) => Some(write_mcp_error(e)),
                    None => None,
                };
                put_optional(&mut f, "error", ev);
                proof {
                    reveal_with_fuel(field_of, 5);
                }
            },
        }
        JsonValue::Object(f)
    }

    /// The envelope of an internal message.
    pub fn from_mcp_message(mcp_message: McpMessage) -> (r: JsonRpcMessage)
        ensures
            envelope_shape(mcp_message, r),
            message_of_envelope(r) == Ok::<McpMessage, ProtocolError>(mcp_message),
            version_of(r)@ == "2.0"@,
    {
        mcp_message.to_jsonrpc()
    }

    /// The internal message of this envelope.
    pub fn to_mcp_message(self) -> (r: Result<McpMessage, ProtocolError>)
        ensures
            r == message_of_envelope(self),
    {
        McpMessage::from_jsonrpc(self)
    }
}

impl McpMessage {
    /// The envelope of this message, with protocol version "2.0"; reading the
    /// envelope back gives this message.
    pub fn to_jsonrpc(self) -> (r: JsonRpcMessage)
        ensures
            envelope_shape(self, r),
            message_of_envelope(r) == Ok::<McpMessage, ProtocolError>(self),
            version_of(r)@ == "2.0"@,
    {
        proof {
            reveal_strlit("initialize");
            reveal_strlit("tools/list");
            reveal_strlit("tools/call");
            assert("initialize"@[0] != "tools/list"@[0]);
            assert("initialize"@[0] != "tools/call"@[0]);
            assert("tools/list"@[6] != "tools/call"@[6]);
        }
        let jsonrpc = owned("2.0");
        match self {
            McpMessage::Initialize { id, params } => JsonRpcMessage::Request {
                jsonrpc,
                id: Some(id),
                method: owned("initialize"),
                params: Some(write_initialize_params(params)),
            },
            McpMessage::ToolsList { id } => JsonRpcMessage::Request {
                jsonrpc,
                id: Some(id),
                method: owned("tools/list"),
                params: None,
            },
            McpMessage::ToolsCall { id, params } => JsonRpcMessage::Request {
                jsonrpc,
                id: Some(id),
                method: owned("tools/call"),
                params: Some(write_call_params(params)),
            },
            McpMessage::Notification { method, params } => JsonRpcMessage::Notification {
                jsonrpc,
                method,
                params,
            },
            McpMessage::Response { id, result, error } => JsonRpcMessage::Response {
                jsonrpc,
                id: Some(id),
                result,
                error,
            },
        }
    }

    /// The internal message of an envelope: requests need an id and a known
    /// method, and `initialize` and `tools/call` need readable parameters.
    pub fn from_jsonrpc(jsonrpc: JsonRpcMessage) -> (r: Result<McpMessage, ProtocolError>)
        ensures
            r == message_of_envelope(jsonrpc),
    {
        match jsonrpc {
            JsonRpcMessage::Request { id, method, params, .. } => match id {
                None => Err(ProtocolError::MissingId),
                Some(id) => if same_text(method.as_str(), "initialize") {
                    match params {
                        None => Err(ProtocolError::MissingParams),
                        Some(p) => match read_initialize_params(p) {
                            Some(ip) => Ok(McpMessage::Initialize { id, params: ip }),
                            None => Err(ProtocolError::InvalidParams),
                        },
                    }
                } else if same_text(method.as_str(), "tools/list") {
                    Ok(McpMessage::ToolsList { id })
                } else if same_text(method.as_str(), "tools/call") {
                    match params {
                        None => Err(ProtocolError::MissingParams),
                        Some(p) => match read_call_params(p) {
                            Some(cp) => Ok(McpMessage::ToolsCall { id, params: cp }),
                            None => Err(ProtocolError::InvalidParams),
                        },
                    }
                } else {
                    Err(ProtocolError::UnknownMethod(method))
                },
            },
            JsonRpcMessage::Response { id, result, error, .. } => match id {
                None => Err(ProtocolError::MissingId),
                Some(id) => Ok(McpMessage::Response { id, result, error }),
            },
            JsonRpcMessage::Notification { method, params, .. } => Ok(
                McpMessage::Notification { method, params },
            ),
        }
    }

    /// Reads an internal message from a JSON value.
    pub fn decode(value: JsonValue) -> (r: Result<McpMessage, CodecError>)
        ensures
            r == message_of(value),
    {
        match JsonRpcMessage::from_json_value(value) {
            Err(e) => Err(CodecError::Framing(e)),
            Ok(env) => match McpMessage::from_jsonrpc(env) {
                Err(e) => Err(CodecError::Protocol(e)),
                Ok(m) => Ok(m),
            },
        }
    }

    /// Writes an internal message as a JSON value; decoding it gives the message back.
    pub fn encode(self) -> (r: JsonValue)
        ensures
            message_of(r) == Ok::<McpMessage, CodecError>(self),
    {
        self.to_jsonrpc().to_json_value()
    }
}

/// Turning a message into its envelope, writing the envelope as JSON and
/// decoding that JSON gives the message back.
pub proof fn lemma_round_trip(m: McpMessage, e: JsonRpcMessage, v: JsonValue)
    requires
        message_of_envelope(e) == Ok::<McpMessage, ProtocolError>(m),
        envelope_of(v) == Ok::<JsonRpcMessage, FramingError>(e),
    ensures
        message_of(v) == Ok::<McpMessage, CodecError>(m),
{
}

} // verus!

use octofhir_mcp::json::JsonValue;
use octofhir_mcp::protocol::{
    ClientCapabilities, ClientInfo, CodecError, FramingError, InitializeParams, JsonRpcMessage, LoggingCapability,
    McpError, McpMessage, ProtocolError, ResourcesCapability, ToolsCallParams, ToolsCapability,
};

fn to_model(v: serde_json::Value) -> JsonValue {
    match v {
        serde_json::Value::Null => JsonValue::Null,
        serde_json::Value::Bool(b) => JsonValue::Bool(b),
        serde_json::Value::Number(n) => {
            if let Some(u) = n.as_u64() {
                JsonValue::UInt(u)
            } else if let Some(i) = n.as_i64() {
                JsonValue::Int(i)
            } else {
                JsonValue::Decimal(n.to_string())
            }
        }
        serde_json::Value::String(s) => JsonValue::Str(s),
        serde_json::Value::Array(a) => JsonValue::Array(a.into_iter().map(to_model).collect()),
        serde_json::Value::Object(o) => JsonValue::Object(o.into_iter().map(|(k, v)| (k, to_model(v))).collect()),
    }
}

fn to_serde(v: JsonValue) -> serde_json::Value {
    match v {
        JsonValue::Null => serde_json::Value::Null,
        JsonValue::Bool(b) => serde_json::Value::Bool(b),
        JsonValue::UInt(u) => serde_json::Value::from(u),
        JsonValue::Int(i) => serde_json::Value::from(i),
        JsonValue::Decimal(t) => serde_json::from_str(&t).unwrap(),
        JsonValue::Str(s) => serde_json::Value::String(s),
        JsonValue::Array(a) => serde_json::Value::Array(a.into_iter().map(to_serde).collect()),
        JsonValue::Object(o) => {
            let mut m = serde_json::Map::new();
            for (k, v) in o {
                m.insert(k, to_serde(v));
            }
            serde_json::Value::Object(m)
        }
    }
}

fn encode_text(m: McpMessage) -> String {
    serde_json::to_string(&to_serde(m.encode())).unwrap()
}

fn decode_text(s: &str) -> Result<McpMessage, CodecError> {
    McpMessage::decode(to_model(serde_json::from_str(s).unwrap()))
}

fn init_message() -> McpMessage {
    McpMessage::Initialize {
        id: 1,
        params: InitializeParams {
            protocol_version: "2024-11-05".to_string(),
            capabilities: ClientCapabilities {
                tools: Some(ToolsCapability { list_changed: Some(true) }),
                resources: Some(ResourcesCapability { list_changed: None, subscribe: Some(false) }),
                prompts: None,
                logging: Some(LoggingCapability),
            },
            client_info: ClientInfo { name: "test-client".to_string(), version: "1.0.0".to_string() },
        },
    }
}

fn same_after_round_trip(m: McpMessage) {
    let expected = format!("{:?}", m);
    let text = encode_text(m);
    let back = decode_text(&text).unwrap();
    assert_eq!(format!("{:?}", back), expected);
}

#[test]
fn test_message_serialization() {
    let message = McpMessage::Initialize {
        id: 1,
        params: InitializeParams {
            protocol_version: "2024-11-05".to_string(),
            capabilities: ClientCapabilities { tools: None, resources: None, prompts: None, logging: None },
            client_info: ClientInfo { name: "test-client".to_string(), version: "1.0.0".to_string() },
        },
    };
    let json_str = encode_text(message);
    assert!(json_str.contains("initialize"));
    assert!(json_str.contains("test-client"));
    assert!(json_str.contains("jsonrpc"));
    assert!(json_str.contains("2.0"));
}

#[test]
fn test_message_deserialization() {
    let json_str = r#"{"jsonrpc":"2.0","id":1,"method":"initialize","params":{"protocol_version":"2024-11-05","capabilities":{"tools":null,"resources":null,"prompts":null,"logging":null},"client_info":{"name":"test-client","version":"1.0.0"}}}"#;
    let value = to_model(serde_json::from_str(json_str).unwrap());
    let envelope = JsonRpcMessage::from_json_value(value);
    assert!(envelope.is_ok(), "Should deserialize valid JSON-RPC message");
    let mcp_message = McpMessage::from_jsonrpc(envelope.unwrap());
    if let Ok(McpMessage::Initialize { params, .. }) = mcp_message {
        assert_eq!(params.client_info.name, "test-client");
    } else {
        panic!("Should parse as Initialize message");
    }
}

#[test]
fn every_variant_survives_the_round_trip() {
    same_after_round_trip(init_message());
    same_after_round_trip(McpMessage::ToolsList { id: 2 });
    same_after_round_trip(McpMessage::ToolsCall {
        id: 3,
        params: ToolsCallParams {
            name: "echo".to_string(),
            arguments: Some(to_model(serde_json::from_str(r#"{"x":1,"y":[1.5,-2,"z"]}"#).unwrap())),
        },
    });
    same_after_round_trip(McpMessage::ToolsCall {
        id: 4,
        params: ToolsCallParams { name: "echo".to_string(), arguments: Some(JsonValue::Null) },
    });
    same_after_round_trip(McpMessage::Notification { method: "notifications/initialized".to_string(), params: None });
    same_after_round_trip(McpMessage::Response {
        id: 5,
        result: None,
        error: Some(McpError { code: -32601, message: "Method not found".to_string(), data: None }),
    });
    same_after_round_trip(McpMessage::Response { id: 6, result: Some(JsonValue::Bool(true)), error: None });
}

#[test]
fn request_without_id_is_refused() {
    assert_eq!(
        decode_text(r#"{"jsonrpc":"2.0","id":null,"method":"tools/list"}"#).unwrap_err(),
        CodecError::Protocol(ProtocolError::MissingId)
    );
}

#[test]
fn unknown_method_is_refused() {
    assert_eq!(
        decode_text(r#"{"jsonrpc":"2.0","id":3,"method":"resources/list"}"#).unwrap_err(),
        CodecError::Protocol(ProtocolError::UnknownMethod("resources/list".to_string()))
    );
}

#[test]
fn framing_errors() {
    assert_eq!(decode_text("[1,2]").unwrap_err(), CodecError::Framing(FramingError::NotAnObject));
    assert_eq!(decode_text(r#"{"id":1,"method":"x"}"#).unwrap_err(), CodecError::Framing(FramingError::MissingVersion));
    assert_eq!(
        decode_text(r#"{"jsonrpc":"2.0","id":"a","method":"x"}"#).unwrap_err(),
        CodecError::Framing(FramingError::InvalidId)
    );
    assert_eq!(
        decode_text(r#"{"jsonrpc":"2.0","method":7}"#).unwrap_err(),
        CodecError::Framing(FramingError::InvalidMethod)
    );
    assert_eq!(
        decode_text(r#"{"jsonrpc":"2.0","id":1,"error":{"message":"no code"}}"#).unwrap_err(),
        CodecError::Framing(FramingError::InvalidError)
    );
}

#[test]
fn missing_and_invalid_params() {
    assert_eq!(
        decode_text(r#"{"jsonrpc":"2.0","id":1,"method":"tools/call"}"#).unwrap_err(),
        CodecError::Protocol(ProtocolError::MissingParams)
    );
    assert_eq!(
        decode_text(r#"{"jsonrpc":"2.0","id":1,"method":"tools/call","params":{"arguments":{}}}"#).unwrap_err(),
        CodecError::Protocol(ProtocolError::InvalidParams)
    );
}

#[test]
fn notification_without_id() {
    let m = decode_text(r#"{"jsonrpc":"2.0","method":"notifications/initialized"}"#).unwrap();
    assert_eq!(
        m,
        McpMessage::Notification { method: "notifications/initialized".to_string(), params: None }
    );
}

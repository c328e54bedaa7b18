use octofhir_mcp::auth::{AuthConfig, AuthError, AuthMethod, Authenticator};
use octofhir_mcp::json::JsonValue;
use octofhir_mcp::protocol::{McpError, McpMessage};
use octofhir_mcp::security::{SecurityConfig, SecurityProvider};
use octofhir_mcp::sse::{LivenessCheck, SseAuthenticator, SseConnection};
use octofhir_mcp::stdio::{LineAction, LineInput, StdioState, StdioTransport};

fn line(text: &str) -> LineInput {
    match serde_json::from_str::<serde_json::Value>(text) {
        Ok(v) => LineInput::Json(model(v)),
        Err(_) => LineInput::Malformed,
    }
}

fn model(v: serde_json::Value) -> JsonValue {
    match v {
        serde_json::Value::Null => JsonValue::Null,
        serde_json::Value::Bool(b) => JsonValue::Bool(b),
        serde_json::Value::Number(n) => match n.as_u64() {
            Some(u) => JsonValue::UInt(u),
            None => match n.as_i64() {
                Some(i) => JsonValue::Int(i),
                None => JsonValue::Decimal(n.to_string()),
            },
        },
        serde_json::Value::String(s) => JsonValue::Str(s),
        serde_json::Value::Array(a) => JsonValue::Array(a.into_iter().map(model).collect()),
        serde_json::Value::Object(o) => JsonValue::Object(o.into_iter().map(|(k, v)| (k, model(v))).collect()),
    }
}

/// Answers each request with a response of the same id; echoes call arguments.
fn handler(m: McpMessage) -> Option<McpMessage> {
    match m {
        McpMessage::Initialize { id, .. } => Some(McpMessage::Response { id, result: Some(JsonValue::Bool(true)), error: None }),
        McpMessage::ToolsList { id } => Some(McpMessage::Response { id, result: Some(JsonValue::Array(vec![])), error: None }),
        McpMessage::ToolsCall { id, params } => {
            if params.name == "echo" {
                Some(McpMessage::Response { id, result: params.arguments, error: None })
            } else {
                Some(McpMessage::Response {
                    id,
                    result: None,
                    error: Some(McpError { code: -32602, message: "unknown tool".to_string(), data: None }),
                })
            }
        }
        _ => None,
    }
}

/// Runs a session over the given lines and returns the replies written.
fn run(lines: Vec<LineInput>) -> (Vec<McpMessage>, StdioTransport) {
    let mut transport = StdioTransport::new();
    transport.start();
    let mut replies = Vec::new();
    for input in lines {
        if !transport.should_read() {
            break;
        }
        match transport.read_message(input) {
            LineAction::Dispatch(m) => {
                if let Some(out) = StdioTransport::write_message(handler(m)) {
                    replies.push(McpMessage::decode(out).unwrap());
                }
            }
            LineAction::Skip => {}
            LineAction::Stop => break,
        }
    }
    (replies, transport)
}

fn reply_id(m: &McpMessage) -> u64 {
    match m {
        McpMessage::Response { id, .. } => *id,
        _ => panic!("not a response"),
    }
}

#[test]
fn stdio_test_stdio_transport_creation() {
    let transport = StdioTransport::new();
    assert!(!transport.is_shutdown_requested());
}

#[test]
fn test_shutdown_signal() {
    let mut transport = StdioTransport::new();
    assert!(!transport.is_shutdown_requested());
    transport.start();
    transport.request_shutdown();
    assert!(transport.is_shutdown_requested());
    assert_eq!(transport.state(), StdioState::ShuttingDown);
    assert!(!transport.should_read());
    assert_eq!(transport.state(), StdioState::Stopped);
}

#[test]
fn one_reply_per_request_in_order() {
    let lines = (1..=5)
        .map(|i| line(&format!(r#"{{"jsonrpc":"2.0","id":{},"method":"tools/list"}}"#, i * 10)))
        .collect();
    let (replies, _) = run(lines);
    assert_eq!(replies.iter().map(reply_id).collect::<Vec<_>>(), vec![10, 20, 30, 40, 50]);
}

#[test]
fn malformed_line_between_requests_is_skipped() {
    let (replies, transport) = run(vec![
        line(r#"{"jsonrpc":"2.0","id":1,"method":"tools/list"}"#),
        line("{not json"),
        line(r#"{"jsonrpc":"2.0","id":2,"method":"tools/list"}"#),
    ]);
    assert_eq!(replies.iter().map(reply_id).collect::<Vec<_>>(), vec![1, 2]);
    assert_eq!(transport.state(), StdioState::Running);
}

#[test]
fn notifications_get_no_reply_and_end_of_input_stops() {
    let (replies, transport) = run(vec![
        line(r#"{"jsonrpc":"2.0","method":"notifications/initialized"}"#),
        LineInput::Blank,
        LineInput::EndOfInput,
        line(r#"{"jsonrpc":"2.0","id":9,"method":"tools/list"}"#),
    ]);
    assert!(replies.is_empty());
    assert_eq!(transport.state(), StdioState::Stopped);
}

#[test]
fn initialize_list_invoke_scenario() {
    let (replies, _) = run(vec![
        line(r#"{"jsonrpc":"2.0","id":1,"method":"initialize","params":{"protocol_version":"2024-11-05","capabilities":{},"client_info":{"name":"c","version":"1"}}}"#),
        line(r#"{"jsonrpc":"2.0","id":2,"method":"tools/list"}"#),
        line(r#"{"jsonrpc":"2.0","id":3,"method":"tools/call","params":{"name":"echo","arguments":{"x":1}}}"#),
    ]);
    assert_eq!(replies.len(), 3);
    assert_eq!(replies.iter().map(reply_id).collect::<Vec<_>>(), vec![1, 2, 3]);
    match &replies[2] {
        McpMessage::Response { result, error, .. } => {
            assert!(error.is_none());
            assert_eq!(result, &Some(JsonValue::Object(vec![("x".to_string(), JsonValue::UInt(1))])));
        }
        _ => panic!("third reply is no response"),
    }
}

fn provider() -> SecurityProvider {
    let mut config = SecurityConfig::default();
    config.api_keys = vec!["test-api-key".to_string(), "other-api-key".to_string()];
    config.jwt_secret = Some("test-secret".to_string());
    SecurityProvider::new(config)
}

fn query(pairs: &[(&str, &str)]) -> Vec<(String, String)> {
    pairs.iter().map(|(k, v)| (k.to_string(), v.to_string())).collect()
}

#[test]
fn test_api_key_authentication() {
    let mut config = AuthConfig::default();
    config.api_keys.push("test-key-123".to_string());
    let auth = Authenticator::new(config);

    let result = auth.authenticate_api_key("test-key-123");
    assert!(result.is_ok());
    assert_eq!(result.unwrap().subject, "api_key:test-k");

    let result = auth.authenticate_api_key("invalid-key");
    assert_eq!(result.unwrap_err(), AuthError::InvalidApiKey);
}

#[test]
fn test_disabled_auth() {
    let mut config = AuthConfig::default();
    config.enable_auth = false;
    let auth = Authenticator::new(config);

    let result = auth.authenticate_api_key("any-key");
    assert!(result.is_ok());
}

#[test]
fn test_stdio_bypass() {
    let auth = Authenticator::new(AuthConfig::default());
    let result = auth.bypass_for_stdio();
    assert!(matches!(result.authenticated_by, AuthMethod::Bypass));
    assert_eq!(result.subject, "stdio");
}

#[test]
fn short_key_subject_never_shows_the_whole_key() {
    let mut config = AuthConfig::default();
    config.api_keys.push("abcd".to_string());
    config.api_keys.push("x".to_string());
    config.api_keys.push("0123456789abcdefghij".to_string());
    let auth = Authenticator::new(config);
    assert_eq!(auth.authenticate_api_key("abcd").unwrap().subject, "api_key:ab");
    assert_eq!(auth.authenticate_api_key("x").unwrap().subject, "api_key:");
    assert_eq!(auth.authenticate_api_key("0123456789abcdefghij").unwrap().subject, "api_key:01234567");
}

#[test]
fn header_parsing() {
    let auth = provider();
    let a = auth.authenticator();
    assert!(matches!(
        a.parse_authorization_header("Bearer test-api-key", 0).unwrap().authenticated_by,
        AuthMethod::ApiKey(_)
    ));
    assert_eq!(a.parse_authorization_header("Basic abc", 0).unwrap_err(), AuthError::InvalidHeaderFormat);
    assert!(matches!(a.parse_authorization_header("Bearer eyJnot.a.token", 0), Err(AuthError::InvalidToken(_))));
    let no_secret = Authenticator::new(AuthConfig::default());
    assert_eq!(no_secret.authenticate_jwt("eyJabc", 0).unwrap_err(), AuthError::JwtSecretMissing);
}

#[test]
fn header_wins_over_query() {
    let sse = SseAuthenticator::new(provider());
    let c = sse
        .authenticate_sse_connection(Some("Bearer test-api-key"), &query(&[("api_key", "other-api-key")]), 0)
        .unwrap();
    assert_eq!(c.authenticated_request.authenticated_by, AuthMethod::ApiKey("test-api-key".to_string()));
}

#[test]
fn query_alone_authenticates() {
    let sse = SseAuthenticator::new(provider());
    let c = sse
        .authenticate_sse_connection(None, &query(&[("api_key", "other-api-key"), ("client_id", "me")]), 5)
        .unwrap();
    assert_eq!(c.authenticated_request.authenticated_by, AuthMethod::ApiKey("other-api-key".to_string()));
    assert_eq!(c.client_id, "me");
    assert_eq!(c.timeout_seconds, 3600);
    assert_eq!(c.connection_time, 5);
}

#[test]
fn invalid_token_is_rejected_with_401() {
    let sse = SseAuthenticator::new(provider());
    assert_eq!(
        sse.authenticate_sse_connection(None, &query(&[("token", "eyJexpired.or.invalid")]), 0).unwrap_err(),
        401
    );
    assert_eq!(
        sse.authenticate_sse_connection(Some("Bearer wrong"), &query(&[]), 0).unwrap_err(),
        401
    );
}

#[test]
fn test_extract_sse_params() {
    let sse = SseAuthenticator::new(provider());
    let params = sse.extract_sse_params(&query(&[
        ("client_id", "test-client"),
        ("token", "test-token"),
        ("timeout", "7200"),
    ]));
    assert_eq!(params.client_id, Some("test-client".to_string()));
    assert_eq!(params.token, Some("test-token".to_string()));
    assert_eq!(params.timeout, Some(7200));
    let bad = sse.extract_sse_params(&query(&[("timeout", "-5"), ("timeout2", "1")]));
    assert_eq!(bad.timeout, None);
}

fn bypass_identity() -> octofhir_mcp::auth::AuthenticatedRequest {
    Authenticator::new(AuthConfig::default()).bypass_for_stdio()
}

#[test]
fn test_sse_connection_expiry() {
    let connection = SseConnection::new("test-client".to_string(), bypass_identity(), Some(1), None, 10_000);
    assert!(!connection.is_expired(10_000));
    assert!(!connection.is_expired(10_999));
    assert!(connection.is_expired(11_001));
    assert!(connection.is_expired(12_000));
}

#[test]
fn test_connection_refresh_timing() {
    let connection =
        SseConnection::new("test-client".to_string(), bypass_identity(), Some(600), Some("refresh-token".to_string()), 0);
    let sse = SseAuthenticator::new(provider());
    assert!(sse.create_refresh_event(&connection, 0).is_none());
    let event = sse.create_refresh_event(&connection, 300_000).unwrap();
    assert_eq!(event.event, "token_refresh");
}

#[test]
fn liveness_check_refreshes_once_then_expires() {
    let mut connection =
        SseConnection::new("c".to_string(), bypass_identity(), Some(600), Some("r".to_string()), 0);
    let sse = SseAuthenticator::new(provider());
    assert_eq!(sse.validate_connection(&mut connection, 100_000), LivenessCheck::Alive(None));
    assert!(matches!(sse.validate_connection(&mut connection, 400_000), LivenessCheck::Alive(Some(_))));
    assert_eq!(sse.validate_connection(&mut connection, 450_000), LivenessCheck::Alive(None));
    match sse.validate_connection(&mut connection, 601_000) {
        LivenessCheck::Expired(e) => assert_eq!(e.event, "auth_error"),
        other => panic!("expected expiry, got {:?}", other),
    }
}

fn member<'a>(v: &'a JsonValue, key: &str) -> &'a JsonValue {
    match v {
        JsonValue::Object(fields) => &fields.iter().find(|(k, _)| k == key).unwrap().1,
        _ => panic!("not an object"),
    }
}

#[test]
fn test_client_auth_instructions() {
    let instructions = octofhir_mcp::sse::create_client_auth_instructions();
    let methods = match member(member(&instructions, "sse_authentication"), "methods") {
        JsonValue::Array(items) => items,
        _ => panic!("methods is no array"),
    };
    assert_eq!(methods.len(), 3);
    let name = |i: usize| match member(&methods[i], "name") {
        JsonValue::Str(s) => s.clone(),
        _ => panic!("name is no string"),
    };
    assert!(name(0).contains("Authorization Header"));
    assert!(name(1).contains("Query Parameter Token"));
    assert!(name(2).contains("Query Parameter API Key"));
}

#[test]
fn signed_token_authenticates_with_its_subject() {
    let claims: serde_json::Value =
        serde_json::from_str(r#"{"sub":"user-7","exp":4000000000,"iat":1700000000,"iss":"tests"}"#).unwrap();
    let token = jsonwebtoken::encode(
        &jsonwebtoken::Header::default(),
        &claims,
        &jsonwebtoken::EncodingKey::from_secret(b"test-secret"),
    )
    .unwrap();
    let auth = provider();
    let identity = auth.authenticator().parse_authorization_header(&format!("Bearer {token}"), 1_700_000_000).unwrap();
    assert_eq!(identity.subject, "user-7");
    match identity.authenticated_by {
        AuthMethod::JwtToken(c) => {
            assert_eq!(c.sub, "user-7");
            assert_eq!(c.iss, "tests");
            assert_eq!(c.exp, 4_000_000_000);
        }
        other => panic!("expected a token identity, got {:?}", other),
    }
    let wrong = jsonwebtoken::encode(
        &jsonwebtoken::Header::default(),
        &claims,
        &jsonwebtoken::EncodingKey::from_secret(b"other-secret"),
    )
    .unwrap();
    assert!(matches!(auth.authenticator().authenticate_jwt(&wrong, 1_700_000_000), Err(AuthError::InvalidToken(_))));
}

#[test]
fn generated_client_id_is_a_uuid() {
    let sse = SseAuthenticator::new(provider());
    let c = sse.authenticate_sse_connection(Some("Bearer test-api-key"), &query(&[]), 0).unwrap();
    assert_eq!(c.client_id.len(), 36);
    assert_eq!(c.client_id.matches('-').count(), 4);
}

#[test]
fn expired_token_is_refused_after_the_leeway() {
    let claims: serde_json::Value =
        serde_json::from_str(r#"{"sub":"u","exp":1000,"iat":900,"iss":"tests"}"#).unwrap();
    let token = jsonwebtoken::encode(
        &jsonwebtoken::Header::default(),
        &claims,
        &jsonwebtoken::EncodingKey::from_secret(b"test-secret"),
    )
    .unwrap();
    let auth = provider();
    assert!(auth.authenticator().authenticate_jwt(&token, 1_060).is_ok());
    assert!(matches!(auth.authenticator().authenticate_jwt(&token, 1_061), Err(AuthError::InvalidToken(_))));
}

#[test]
fn failed_query_token_falls_back_to_api_key() {
    let sse = SseAuthenticator::new(provider());
    let c = sse
        .authenticate_sse_connection(None, &query(&[("token", "eyJbroken"), ("api_key", "other-api-key")]), 0)
        .unwrap();
    assert_eq!(c.authenticated_request.authenticated_by, AuthMethod::ApiKey("other-api-key".to_string()));
}

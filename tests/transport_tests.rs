use octofhir_mcp::json::JsonValue;
use octofhir_mcp::transport::validate_tool_arguments;
use octofhir_mcp::validation::{InputValidator, ValidationConfig};
use octofhir_mcp::config::{CacheProvider, EngineError, ExampleProvider, SchemaProvider, ServerConfig, SharedEngine};
use octofhir_mcp::health::HealthStatus;
use octofhir_mcp::transport::{
    health_http_status, is_error_status, readiness_http_status, route_auth, tool_metric_names, RouteAuth,
    StdioTransportServer, TransportFactory,
};

#[test]
fn test_factory_methods() {
    let http_transport = TransportFactory::create_http("localhost", 8080);
    assert_eq!(http_transport.host, "localhost");
    assert_eq!(http_transport.port, 8080);

    let stdio_transport = TransportFactory::create_stdio();
    assert_eq!(
        std::mem::size_of_val(&stdio_transport),
        std::mem::size_of::<StdioTransportServer>()
    );
}

#[test]
fn transport_test_http_transport_creation() {
    let transport = TransportFactory::create_http("127.0.0.1", 3002);
    assert_eq!(transport.host, "127.0.0.1");
    assert_eq!(transport.port, 3002);
}

#[test]
fn health_statuses_map_to_http() {
    assert_eq!(health_http_status(HealthStatus::Healthy), 200);
    assert_eq!(health_http_status(HealthStatus::Degraded), 200);
    assert_eq!(health_http_status(HealthStatus::Unhealthy), 503);
    assert_eq!(readiness_http_status(true), 200);
    assert_eq!(readiness_http_status(false), 503);
}

#[test]
fn routes_and_error_statuses() {
    assert_eq!(route_auth("/health"), RouteAuth::Open);
    assert_eq!(route_auth("/sse"), RouteAuth::Stream);
    assert_eq!(route_auth("/metrics"), RouteAuth::Header);
    assert!(is_error_status(404));
    assert!(is_error_status(503));
    assert!(!is_error_status(204));
}

#[test]
fn tool_routes_count_requests_and_errors() {
    assert_eq!(tool_metric_names("/mcp/tools/echo", false), vec!["tool_echo_requests"]);
    assert_eq!(
        tool_metric_names("/mcp/tools/echo", true),
        vec!["tool_echo_requests", "tool_echo_errors"]
    );
    assert!(tool_metric_names("/health", true).is_empty());
}

#[test]
fn shared_engine_must_be_initialized_first() {
    let mut slot: SharedEngine<u32> = SharedEngine::new();
    assert_eq!(slot.get().err(), Some(EngineError::NotInitialized));
    assert_eq!(slot.init(7), Ok(()));
    assert_eq!(slot.init(8), Err(EngineError::AlreadyInitialized));
    assert_eq!(slot.get().ok(), Some(&7));
}

#[test]
fn defaults_and_placeholders() {
    let config = ServerConfig::default();
    assert_eq!(config.host, "localhost");
    assert_eq!(config.port, 3000);
    let _ = (CacheProvider::new(), ExampleProvider::new(), SchemaProvider::new());
}

#[test]
fn test_auth_token_management() {
    let mut tokens = octofhir_mcp::transport::AuthTokens::new();
    let token = tokens.add_auth_token("test-user".to_string(), 3_600_000, 1_000);
    assert_eq!(tokens.validate_token(&token, 2_000), Some("test-user".to_string()));
    assert_eq!(tokens.validate_token("invalid-token", 2_000), None);
    assert_eq!(tokens.validate_token(&token, 3_601_000), None);
}

#[test]
fn tool_arguments_are_validated() {
    let validator = InputValidator::new(ValidationConfig::default());
    let good = Some(JsonValue::Object(vec![
        ("expression".to_string(), JsonValue::Str("Patient.name".to_string())),
        ("resource".to_string(), JsonValue::Object(vec![])),
    ]));
    assert!(validate_tool_arguments(&validator, &good, 2).is_none());
    let bad_expression = Some(JsonValue::Object(vec![("expression".to_string(), JsonValue::Str("eval(x)".to_string()))]));
    let (status, response) = validate_tool_arguments(&validator, &bad_expression, 0).unwrap();
    assert_eq!(status, 400);
    assert_eq!(response.error, Some("Request validation failed".to_string()));
    let bad_resource = Some(JsonValue::Object(vec![("resource".to_string(), JsonValue::Array(vec![]))]));
    assert!(validate_tool_arguments(&validator, &bad_resource, 2).is_some());
    assert!(validate_tool_arguments(&validator, &None, 0).is_none());
}

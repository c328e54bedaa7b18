use octofhir_mcp::json::JsonValue;
use octofhir_mcp::sanitize::RequestSanitizer;
use octofhir_mcp::validation::{contains_text, first_contained, InputValidator, ValidationConfig, ValidationError};

#[test]
fn test_expression_length_validation() {
    let config = ValidationConfig::default();
    let validator = InputValidator::new(config);

    let short_expr = "Patient.name";
    assert!(validator.validate_fhirpath_expression(short_expr).is_ok());

    let long_expr = "x".repeat(2000);
    assert!(validator.validate_fhirpath_expression(&long_expr).is_err());
}

#[test]
fn test_expression_depth_validation() {
    let mut config = ValidationConfig::default();
    config.max_expression_depth = 2;
    let validator = InputValidator::new(config);

    let shallow_expr = "Patient.name";
    assert!(validator.validate_fhirpath_expression(shallow_expr).is_ok());

    let deep_expr = "Patient.name.where(value.contains(text.substring(start.add(end))))";
    assert!(validator.validate_fhirpath_expression(deep_expr).is_err());
}

#[test]
fn test_blacklisted_functions() {
    let config = ValidationConfig::default();
    let validator = InputValidator::new(config);

    let safe_expr = "Patient.name.first()";
    assert!(validator.validate_fhirpath_expression(safe_expr).is_ok());

    let unsafe_expr = "eval('malicious code')";
    assert!(validator.validate_fhirpath_expression(unsafe_expr).is_err());
}

#[test]
fn test_error_message_sanitization() {
    let detailed_error = "JWT token validation failed with secret key abc123";
    let sanitized = RequestSanitizer::sanitize_error_message(detailed_error, false);
    assert_eq!(sanitized, "Request validation failed");

    let sanitized_detailed = RequestSanitizer::sanitize_error_message(detailed_error, true);
    assert!(!sanitized_detailed.contains("JWT"));
    assert!(sanitized_detailed.contains("token"));
}

#[test]
fn sanitized_error_keeps_three_lines() {
    let error = "API key rejected\r\nJWT expired\nline three\nline four\n";
    let sanitized = RequestSanitizer::sanitize_error_message(error, true);
    assert_eq!(sanitized, "authentication rejected token expired line three");
}

#[test]
fn each_error_kind_has_an_input() {
    let mut config = ValidationConfig::default();
    config.max_expression_length = 10;
    config.max_expression_depth = 1;
    let validator = InputValidator::new(config);
    assert_eq!(
        validator.validate_fhirpath_expression("abcdefghijk"),
        Err(ValidationError::ExpressionTooLong { length: 11, max: 10 })
    );
    assert_eq!(validator.validate_fhirpath_expression(""), Err(ValidationError::EmptyExpression));
    assert_eq!(
        validator.validate_fhirpath_expression("a((b))"),
        Err(ValidationError::ExpressionTooDeep { depth: 2, max: 1 })
    );
    assert_eq!(
        validator.validate_fhirpath_expression("x.SYSTEM()"),
        Err(ValidationError::BlacklistedFunction("system".to_string()))
    );
}

#[test]
fn depth_ignores_quoted_and_escaped_brackets() {
    let validator = InputValidator::new(ValidationConfig::default());
    assert_eq!(validator.calculate_expression_depth("a('(((')"), 1);
    assert_eq!(validator.calculate_expression_depth("a(\\(b)"), 1);
    assert_eq!(validator.calculate_expression_depth("))(["), 2);
}

#[test]
fn sanitizing_trims_and_drops_control_characters() {
    let validator = InputValidator::new(ValidationConfig::default());
    assert_eq!(validator.sanitize_expression("  Patient\r.name\0\u{e9}  "), "Patient.name");
    assert_eq!(
        validator.validate_fhirpath_expression(" Patient.name\t").unwrap(),
        "Patient.name"
    );
}

#[test]
fn blacklist_matches_after_lowercasing() {
    let lowered = vec!["eval".to_string(), "exec".to_string()];
    assert_eq!(first_contained("x.exec()", &lowered), Some(1));
    assert_eq!(first_contained("x.first()", &lowered), None);
    assert!(contains_text("abcabd", "abd"));
    assert!(!contains_text("ab", "abc"));
}

#[test]
fn resource_checks() {
    let validator = InputValidator::new(ValidationConfig::default());
    let resource = JsonValue::Object(vec![
        ("resourceType".to_string(), JsonValue::Str("Patient".to_string())),
        ("note".to_string(), JsonValue::Str("a\0b\rc\u{feff}".to_string())),
    ]);
    assert_eq!(
        validator.validate_fhir_resource(&resource, 40),
        Ok(JsonValue::Object(vec![
            ("resourceType".to_string(), JsonValue::Str("Patient".to_string())),
            ("note".to_string(), JsonValue::Str("abc".to_string())),
        ]))
    );
    assert_eq!(
        validator.validate_fhir_resource(&resource, 2 * 1024 * 1024),
        Err(ValidationError::ResourceTooLarge { size: 2 * 1024 * 1024, max: 1024 * 1024 })
    );
    assert_eq!(
        validator.validate_fhir_resource(&JsonValue::Array(vec![]), 2),
        Err(ValidationError::ResourceNotObject)
    );
    let long_key = JsonValue::Object(vec![("k".repeat(300), JsonValue::Null)]);
    assert_eq!(validator.validate_fhir_resource(&long_key, 310), Err(ValidationError::KeyTooLong(300)));
    let big_array = JsonValue::Object(vec![("a".to_string(), JsonValue::Array((0..10001).map(|_| JsonValue::Null).collect()))]);
    assert_eq!(validator.validate_fhir_resource(&big_array, 50000), Err(ValidationError::ArrayTooLarge(10001)));
    let long_string = JsonValue::Object(vec![("s".to_string(), JsonValue::Str("x".repeat(100001)))]);
    assert_eq!(validator.validate_fhir_resource(&long_string, 100010), Err(ValidationError::StringTooLong(100001)));
}

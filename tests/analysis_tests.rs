use octofhir_mcp::analysis::{
    analyze_expression_structure, assess_complexity, extract_functions, predict_performance,
    suggestion_for, FhirPathEvaluateTool, FhirPathParseTool,
};

#[test]
fn test_extract_functions() {
    let expression = "Patient.name.where(use = 'official').given.first()";
    let functions = extract_functions(expression);
    assert!(functions.contains(&"where".to_string()));
    assert!(functions.contains(&"first".to_string()));
}

#[test]
fn tools_test_complexity_assessment() {
    assert_eq!(assess_complexity("name"), "simple");
    assert_eq!(assess_complexity("Patient.name.given.first()"), "moderate");
    assert_eq!(
        assess_complexity(
            "Patient.name.where(use = 'official').given.first() and Patient.birthDate < today()"
        ),
        "complex"
    );
}

#[test]
fn fhirpath_evaluate_test_test_complexity_assessment() {
    let tool = FhirPathEvaluateTool::new().unwrap();

    assert_eq!(tool.assess_complexity("name"), "simple");
    assert_eq!(tool.assess_complexity("Patient.name.given.first()"), "moderate");
    assert_eq!(tool.assess_complexity("Patient.name.where(use = 'official').given.first() and Patient.birthDate < today()"), "complex");
}

#[test]
fn extracted_functions_are_sorted_and_unique() {
    let functions = extract_functions("a.where(b).where(c).exists().count() and x.in(y)");
    assert_eq!(functions, vec!["count", "exists", "in", "where"]);
    assert!(extract_functions("Patient.name").is_empty());
}

#[test]
fn structure_and_performance_of_a_filter() {
    let expression = "Patient.name.where(use = 'official').given";
    let functions = extract_functions(expression);
    let analysis = analyze_expression_structure(expression, &functions);
    assert_eq!(analysis.path_segments, 4);
    assert_eq!(analysis.function_count, 1);
    assert!(analysis.uses_collections);
    assert_eq!(analysis.expression_type, "filter");
    assert_eq!(analysis.complexity, "high");
    let prediction = predict_performance(expression, &functions, &analysis);
    // 1 + 4 + 2 + 2 + 1 = 10
    assert_eq!(prediction.complexity_score, 10);
    assert_eq!(prediction.performance_category, "very_slow");
    assert_eq!(prediction.suggestions.len(), 1);
}

#[test]
fn simple_query_is_fast() {
    let functions = extract_functions("name");
    let analysis = analyze_expression_structure("name", &functions);
    assert_eq!(analysis.expression_type, "query");
    assert_eq!(analysis.complexity, "low");
    let prediction = predict_performance("name", &functions, &analysis);
    assert_eq!(prediction.complexity_score, 2);
    assert_eq!(prediction.performance_category, "fast");
    assert_eq!(prediction.suggestions, vec!["Expression looks well-optimized".to_string()]);
}

#[test]
fn syntax_explanations() {
    let tool = FhirPathParseTool::new().unwrap();
    assert_eq!(
        tool.generate_syntax_explanation("Patient.name.first()"),
        "Selects the first element from a collection"
    );
    assert_eq!(
        tool.generate_syntax_explanation("Patient.name.given"),
        "Navigates through FHIR resource path: Patient -> name -> given"
    );
    assert_eq!(tool.generate_syntax_explanation("name"), "Simple FHIRPath expression");
}

#[test]
fn error_positions() {
    let tool = FhirPathParseTool::new().unwrap();
    assert_eq!(tool.extract_error_position("unexpected end of input", "a.b("), Some(4));
    assert_eq!(tool.extract_error_position("expected ')'", "ab(c"), Some(3));
    assert_eq!(tool.extract_error_position("expected ']'", "ab[c"), Some(3));
    assert_eq!(tool.extract_error_position("expected token", "abc"), None);
    assert_eq!(tool.extract_error_position("boom", "a("), None);
}

#[test]
fn error_suggestions_ignore_case() {
    let tool = FhirPathParseTool::new().unwrap();
    assert_eq!(
        tool.generate_error_suggestion("Unexpected End of input", "a.where(b"),
        Some("Complete the expression by adding a closing parenthesis ')'".to_string())
    );
    assert_eq!(
        tool.generate_error_suggestion("INVALID token", "a"),
        Some("Review the expression syntax according to FHIRPath specification".to_string())
    );
    assert_eq!(tool.generate_error_suggestion("boom", "a"), None);
    assert_eq!(
        suggestion_for("expected ident", "a"),
        Some("Check the syntax around the error position".to_string())
    );
}

#[test]
fn token_counts_and_descriptions() {
    use_descriptions();
    assert_eq!(octofhir_mcp::tools::token_count("Patient.name.where(use = 'x')"), 6);
    assert_eq!(octofhir_mcp::tools::token_count("  "), 0);
}

fn use_descriptions() {
    let evaluate = FhirPathEvaluateTool::new().unwrap().description();
    assert_eq!(evaluate.name, "fhirpath_evaluate");
    assert_eq!(evaluate.parameters.len(), 4);
    let parse = FhirPathParseTool::new().unwrap().description();
    assert_eq!(parse.name, "fhirpath_parse");
    assert!(parse.parameters[0].required);
    assert!(!parse.parameters[2].required);
    let options = octofhir_mcp::tools::AnalysisOptions::default();
    assert_eq!(options.include_ast, Some(false));
}

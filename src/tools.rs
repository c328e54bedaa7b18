//! The parameter and result shapes of the expression tools, their
//! descriptions, and the tool server's identity.

use vstd::prelude::*;
use crate::analysis::{count_char, count_of, FhirPathEvaluateTool, FhirPathParseTool};
use crate::text::{chars_of, owned};

verus! {

/// Kinds of tool parameters.
#[derive(Debug, Clone, Copy, PartialEq, Eq, Structural)]
pub enum ToolParameterType {
    String,
    Number,
    Boolean,
    Object,
    Array,
}

/// One parameter of a tool.
#[derive(Debug, Clone, PartialEq)]
pub struct ToolParameter {
    pub name: String,
    pub description: String,
    pub parameter_type: ToolParameterType,
    pub required: bool,
}

/// A tool as it is announced to clients.
#[derive(Debug, Clone, PartialEq)]
pub struct ToolDescription {
    pub name: String,
    pub description: String,
    pub parameters: Vec<ToolParameter>,
}

/// Parameters of the parse tool.
#[derive(Debug, Clone, PartialEq)]
pub struct ParseParams {
    pub expression: String,
    pub include_ast: Option<bool>,
    pub explain_syntax: Option<bool>,
}

/// A parse error with its position, severity and a suggestion.
#[derive(Debug, Clone, PartialEq)]
pub struct ParseError {
    pub message: String,
    pub position: Option<usize>,
    pub severity: String,
    pub suggestion: Option<String>,
}

/// What the analysis of an expression includes.
#[derive(Debug, Clone, Copy, PartialEq, Eq)]
pub struct AnalysisOptions {
    pub include_ast: Option<bool>,
    pub include_performance: Option<bool>,
    pub include_functions: Option<bool>,
}

impl Default for AnalysisOptions {
    fn default() -> (r: AnalysisOptions)
        ensures
            r.include_ast == Some(false),
            r.include_performance == Some(true),
            r.include_functions == Some(true),
    {
        AnalysisOptions { include_ast: Some(false), include_performance: Some(true), include_functions: Some(true) }
    }
}

/// Parameters of the analysis tool.
#[derive(Debug, Clone, PartialEq)]
pub struct AnalyzeParams {
    pub expression: String,
    pub options: Option<AnalysisOptions>,
}

/// Syntax findings of an analysis.
#[derive(Debug, Clone, PartialEq)]
pub struct SyntaxAnalysis {
    pub is_valid: bool,
    pub errors: Vec<String>,
    pub warnings: Vec<String>,
    pub token_count: usize,
}

/// Metadata of a parsed expression.
#[derive(Debug, Clone, PartialEq)]
pub struct ExpressionMetadata {
    pub complexity: String,
    pub token_count: usize,
    pub functions_used: Vec<String>,
    pub evaluation_complexity: String,
}

/// The number of whitespace-separated words of a text.
pub open spec fn word_count(s: Seq<char>) -> nat
    decreases s.len(),
{
    if s.len() == 0 {
        0
    } else {
        let starts = !crate::validation::is_white(s.last()) && (s.len() == 1 || crate::validation::is_white(
            s[s.len() - 2],
        ));
        word_count(s.drop_last()) + if starts { 1nat } else { 0nat }
    }
}

/// A rough token count: words, plus dots, opening parentheses and opening brackets.
pub open spec fn token_count_of(s: Seq<char>) -> nat {
    word_count(s) + count_char(s, '.') + count_char(s, '(') + count_char(s, '[')
}

/// A rough token count of an expression.
pub fn token_count(expression: &str) -> (r: usize)
    requires
        4 * expression@.len() <= usize::MAX,
    ensures
        r == token_count_of(expression@),
{
    let cs = chars_of(expression);
    let mut words: usize = 0;
    let mut i: usize = 0;
    while i < cs.len()
        invariant
            i <= cs@.len(),
            words == word_count(cs@.take(i as int)),
            words <= i,
        decreases cs.len() - i,
    {
        proof {
            assert(cs@.take(i + 1).drop_last() =~= cs@.take(i as int));
        }
        let c = cs[i];
        let starts = !is_white_char(c) && (i == 0 || is_white_char(cs[i - 1]));
        if starts {
            words = words + 1;
        }
        i = i + 1;
    }
    proof {
        assert(cs@.take(i as int) =~= cs@);
    }
    words + count_of(&cs, '.') + count_of(&cs, '(') + count_of(&cs, '[')
}

fn is_white_char(c: char) -> (r: bool)
    ensures
        r == crate::validation::is_white(c),
{
    ('\u{9}' <= c && c <= '\u{d}') || c == ' ' || c == '\u{85}' || c == '\u{a0}' || c == '\u{1680}'
        || ('\u{2000}' <= c && c <= '\u{200a}') || c == '\u{2028}' || c == '\u{2029}' || c == '\u{202f}'
        || c == '\u{205f}' || c == '\u{3000}'
}

fn parameter(name: &str, description: &str, parameter_type: ToolParameterType, required: bool) -> (r: ToolParameter)
    ensures
        r.name@ == name@,
        r.description@ == description@,
        r.parameter_type == parameter_type,
        r.required == required,
{
    ToolParameter { name: owned(name), description: owned(description), parameter_type, required }
}

impl FhirPathEvaluateTool {
    /// The evaluation tool: an expression and a resource are required, the
    /// context and a timeout optional.
    pub fn description(&self) -> (r: ToolDescription)
        ensures
            r.name@ == "fhirpath_evaluate"@,
            r.parameters@.len() == 4,
            r.parameters@[0].name@ == "expression"@ && r.parameters@[0].required,
            r.parameters@[1].name@ == "resource"@ && r.parameters@[1].required,
            r.parameters@[2].name@ == "context"@ && !r.parameters@[2].required,
            r.parameters@[3].name@ == "timeout_ms"@ && !r.parameters@[3].required,
    {
        let mut parameters: Vec<ToolParameter> = Vec::new();
        parameters.push(parameter("expression", "The FHIRPath expression to evaluate", ToolParameterType::String, true));
        parameters.push(parameter(
            "resource",
            "The FHIR resource to evaluate against (JSON object)",
            ToolParameterType::Object,
            true,
        ));
        parameters.push(parameter("context", "Optional context variables for evaluation", ToolParameterType::Object, false));
        parameters.push(parameter(
            "timeout_ms",
            "Optional timeout in milliseconds (default: 5000ms)",
            ToolParameterType::Number,
            false,
        ));
        ToolDescription {
            name: owned("fhirpath_evaluate"),
            description: owned(
                "Evaluates FHIRPath expressions against FHIR resources, returning typed results with performance metrics",
            ),
            parameters,
        }
    }
}

impl FhirPathParseTool {
    /// The parse tool: an expression is required, the AST and an
    /// explanation are optional.
    pub fn description(&self) -> (r: ToolDescription)
        ensures
            r.name@ == "fhirpath_parse"@,
            r.parameters@.len() == 3,
            r.parameters@[0].name@ == "expression"@ && r.parameters@[0].required,
            r.parameters@[1].name@ == "include_ast"@ && !r.parameters@[1].required,
            r.parameters@[2].name@ == "explain_syntax"@ && !r.parameters@[2].required,
    {
        let mut parameters: Vec<ToolParameter> = Vec::new();
        parameters.push(parameter(
            "expression",
            "The FHIRPath expression to parse and validate",
            ToolParameterType::String,
            true,
        ));
        parameters.push(parameter(
            "include_ast",
            "Include AST representation in the response (optional, default: false)",
            ToolParameterType::Boolean,
            false,
        ));
        parameters.push(parameter(
            "explain_syntax",
            "Provide syntax explanation for valid expressions (optional, default: false)",
            ToolParameterType::Boolean,
            false,
        ));
        ToolDescription {
            name: owned("fhirpath_parse"),
            description: owned(
                "Parse and validate FHIRPath expressions with detailed syntax feedback, AST generation, and complexity analysis",
            ),
            parameters,
        }
    }
}

/// The tool server's identity.
#[derive(Debug, Clone, Copy, PartialEq, Eq, Default)]
pub struct FhirPathToolServer;

impl FhirPathToolServer {
    pub fn new() -> (r: FhirPathToolServer) {
        FhirPathToolServer
    }
}

/// The tool router's identity.
#[derive(Debug, Clone, Copy, PartialEq, Eq, Default)]
pub struct FhirPathToolRouter;

} // verus!

//! Text-level analysis of expressions: complexity labels, the functions an
//! expression names, structure and performance estimates, and explanations
//! of parse results.

use vstd::prelude::*;
use vstd::string::StringSliceAdditionalSpecFns;
use crate::sanitize::{replace_all, replace_text};
use crate::text::{chars_of, owned, push_char};
use crate::validation::{contains_text, lowercase, lower_of, occurs_in};

verus! {

/// How often `c` occurs in `s`.
pub open spec fn count_char(s: Seq<char>, c: char) -> nat
    decreases s.len(),
{
    if s.len() == 0 {
        0
    } else {
        count_char(s.drop_last(), c) + if s.last() == c { 1nat } else { 0nat }
    }
}

pub open spec fn is_operator(c: char) -> bool {
    c == '=' || c == '!' || c == '<' || c == '>' || c == '&' || c == '|'
}

/// How many comparison or logical operator characters `s` holds.
pub open spec fn count_operators(s: Seq<char>) -> nat
    decreases s.len(),
{
    if s.len() == 0 {
        0
    } else {
        count_operators(s.drop_last()) + if is_operator(s.last()) { 1nat } else { 0nat }
    }
}

/// "simple" below all three first limits, else "moderate" below the second
/// ones, else "complex".
pub open spec fn complexity_label(
    length: nat,
    functions: nat,
    operators: nat,
    moderate_length: nat,
    moderate_count: nat,
) -> Seq<char> {
    if length < 20 && functions <= 1 && operators <= 1 {
        "simple"@
    } else if length < moderate_length && functions <= moderate_count && operators <= moderate_count {
        "moderate"@
    } else {
        "complex"@
    }
}

pub fn count_of(s: &Vec<char>, c: char) -> (r: usize)
    ensures
        r == count_char(s@, c),
        r <= s@.len(),
{
    let mut n: usize = 0;
    let mut i: usize = 0;
    while i < s.len()
        invariant
            i <= s@.len(),
            n == count_char(s@.take(i as int), c),
            n <= i,
        decreases s.len() - i,
    {
        proof {
            assert(s@.take(i + 1).drop_last() =~= s@.take(i as int));
        }
        if s[i] == c {
            n = n + 1;
        }
        i = i + 1;
    }
    proof {
        assert(s@.take(i as int) =~= s@);
    }
    n
}

fn operators_in(s: &Vec<char>) -> (r: usize)
    ensures
        r == count_operators(s@),
{
    let mut n: usize = 0;
    let mut i: usize = 0;
    while i < s.len()
        invariant
            i <= s@.len(),
            n == count_operators(s@.take(i as int)),
            n <= i,
        decreases s.len() - i,
    {
        proof {
            assert(s@.take(i + 1).drop_last() =~= s@.take(i as int));
        }
        let c = s[i];
        if c == '=' || c == '!' || c == '<' || c == '>' || c == '&' || c == '|' {
            n = n + 1;
        }
        i = i + 1;
    }
    proof {
        assert(s@.take(i as int) =~= s@);
    }
    n
}

fn label(length: usize, functions: usize, operators: usize, moderate_length: usize, moderate_count: usize) -> (r: String)
    ensures
        r@ == complexity_label(length as nat, functions as nat, operators as nat, moderate_length as nat, moderate_count as nat),
{
    if length < 20 && functions <= 1 && operators <= 1 {
        owned("simple")
    } else if length < moderate_length && functions <= moderate_count && operators <= moderate_count {
        owned("moderate")
    } else {
        owned("complex")
    }
}

/// The complexity of an expression from its length in bytes, its opening
/// parentheses and its operator characters: "simple" (under 20 bytes, at
/// most one of each), "moderate" (under 50 bytes, at most two of each) or
/// "complex".
pub fn assess_complexity(expression: &str) -> (r: String)
    ensures
        r@ == complexity_label(
            expression.len() as nat,
            count_char(expression@, '('),
            count_operators(expression@),
            50,
            2,
        ),
{
    let cs = chars_of(expression);
    label(expression.len(), count_of(&cs, '('), operators_in(&cs), 50, 2)
}

/// The names of the functions that the extraction looks for, in ascending order.
pub open spec fn function_names() -> Seq<Seq<char>> {
    seq![
        "all"@,
        "any"@,
        "combine"@,
        "contains"@,
        "convertsToDateTime"@,
        "convertsToDecimal"@,
        "convertsToInteger"@,
        "convertsToTime"@,
        "count"@,
        "distinct"@,
        "empty"@,
        "endsWith"@,
        "exclude"@,
        "exists"@,
        "first"@,
        "iif"@,
        "in"@,
        "indexOf"@,
        "intersect"@,
        "isDistinct"@,
        "last"@,
        "length"@,
        "matches"@,
        "not"@,
        "now"@,
        "replace"@,
        "replaceMatches"@,
        "select"@,
        "single"@,
        "skip"@,
        "startsWith"@,
        "subsetOf"@,
        "substring"@,
        "supersetOf"@,
        "tail"@,
        "take"@,
        "timeOfDay"@,
        "toDateTime"@,
        "toDecimal"@,
        "toInteger"@,
        "toString"@,
        "toTime"@,
        "today"@,
        "trace"@,
        "union"@,
        "where"@
    ]
}

/// The names of `names` that occur in `expression` followed by `(`, in order.
pub open spec fn called_names(names: Seq<Seq<char>>, expression: Seq<char>) -> Seq<Seq<char>>
    decreases names.len(),
{
    if names.len() == 0 {
        Seq::empty()
    } else if occurs_in(names.last().push('('), expression) {
        called_names(names.drop_last(), expression).push(names.last())
    } else {
        called_names(names.drop_last(), expression)
    }
}

fn function_name_list() -> (v: Vec<&'static str>)
    ensures
        v@.len() == function_names().len(),
        forall|i: int| 0 <= i < v@.len() ==> (#[trigger] v@[i])@ == function_names()[i],
{
    let mut v: Vec<&'static str> = Vec::new();
    v.push("all");
    v.push("any");
    v.push("combine");
    v.push("contains");
    v.push("convertsToDateTime");
    v.push("convertsToDecimal");
    v.push("convertsToInteger");
    v.push("convertsToTime");
    v.push("count");
    v.push("distinct");
    v.push("empty");
    v.push("endsWith");
    v.push("exclude");
    v.push("exists");
    v.push("first");
    v.push("iif");
    v.push("in");
    v.push("indexOf");
    v.push("intersect");
    v.push("isDistinct");
    v.push("last");
    v.push("length");
    v.push("matches");
    v.push("not");
    v.push("now");
    v.push("replace");
    v.push("replaceMatches");
    v.push("select");
    v.push("single");
    v.push("skip");
    v.push("startsWith");
    v.push("subsetOf");
    v.push("substring");
    v.push("supersetOf");
    v.push("tail");
    v.push("take");
    v.push("timeOfDay");
    v.push("toDateTime");
    v.push("toDecimal");
    v.push("toInteger");
    v.push("toString");
    v.push("toTime");
    v.push("today");
    v.push("trace");
    v.push("union");
    v.push("where");
    proof {
        assert forall|i: int| 0 <= i < v@.len() implies (#[trigger] v@[i])@ == function_names()[i] by {}
    }
    v
}

/// The known functions that the expression calls (a name directly followed
/// by `(`), in ascending order, each once.
pub fn extract_functions(expression: &str) -> (r: Vec<String>)
    ensures
        r@.len() == called_names(function_names(), expression@).len(),
        forall|i: int| 0 <= i < r@.len() ==> (#[trigger] r@[i])@ == called_names(function_names(), expression@)[i],
{
    let names = function_name_list();
    let mut out: Vec<String> = Vec::new();
    let mut i: usize = 0;
    while i < names.len()
        invariant
            names@.len() == function_names().len(),
            forall|k: int| 0 <= k < names@.len() ==> (#[trigger] names@[k])@ == function_names()[k],
            i <= names@.len(),
            out@.len() == called_names(function_names().take(i as int), expression@).len(),
            forall|k: int| 0 <= k < out@.len() ==> (#[trigger] out@[k])@ == called_names(function_names().take(i as int), expression@)[k],
        decreases names.len() - i,
    {
        let mut call = owned(names[i]);
        push_char(&mut call, '(');
        proof {
            assert(function_names().take(i + 1).drop_last() =~= function_names().take(i as int));
            assert(function_names().take(i + 1).last() == function_names()[i as int]);
        }
        if contains_text(expression, call.as_str()) {
            out.push(owned(names[i]));
        }
        i = i + 1;
    }
    proof {
        assert(function_names().take(i as int) =~= function_names());
    }
    out
}

/// Whether one of `functions` is `name`.
pub open spec fn named(functions: Seq<String>, name: Seq<char>) -> bool {
    exists|i: int| 0 <= i < functions.len() && (#[trigger] functions[i])@ == name
}

pub fn contains_name(functions: &Vec<String>, name: &str) -> (r: bool)
    ensures
        r == named(functions@, name@),
{
    let mut i: usize = 0;
    while i < functions.len()
        invariant
            i <= functions@.len(),
            forall|j: int| 0 <= j < i ==> (#[trigger] functions@[j])@ != name@,
        decreases functions.len() - i,
    {
        if crate::text::same_text(functions[i].as_str(), name) {
            assert(functions@[i as int]@ == name@);
            return true;
        }
        i = i + 1;
    }
    false
}

/// Structure of an expression.
#[derive(Debug, Clone, PartialEq)]
pub struct ExpressionAnalysis {
    pub complexity: String,
    pub expression_type: String,
    pub path_segments: usize,
    pub function_count: usize,
    pub uses_collections: bool,
}

/// Performance estimate of an expression; the score runs from 1 to 10.
#[derive(Debug, Clone, PartialEq)]
pub struct PerformancePrediction {
    pub complexity_score: u8,
    pub performance_category: String,
    pub suggestions: Vec<String>,
}

/// Whether an expression uses collections: it indexes, or calls a function
/// that walks a whole collection.
pub open spec fn uses_collections(expression: Seq<char>, functions: Seq<String>) -> bool {
    count_char(expression, '[') > 0 || named(functions, "where"@) || named(functions, "select"@)
        || named(functions, "all"@) || named(functions, "any"@) || named(functions, "distinct"@)
}

/// The kind of an expression, by the functions it calls.
pub open spec fn expression_type(functions: Seq<String>) -> Seq<char> {
    if named(functions, "where"@) || named(functions, "exists"@) || named(functions, "empty"@) {
        "filter"@
    } else if named(functions, "count"@) || named(functions, "sum"@) || named(functions, "avg"@) {
        "aggregation"@
    } else if named(functions, "select"@) || named(functions, "first"@) || named(functions, "last"@) {
        "transformation"@
    } else {
        "query"@
    }
}

/// Structure score: path segments, two per function, two for collections.
pub open spec fn structure_score(segments: nat, functions: nat, collections: bool) -> nat {
    segments + 2 * functions + if collections { 2nat } else { 0nat }
}

pub open spec fn structure_label(score: nat) -> Seq<char> {
    if score < 3 { "low"@ } else if score < 8 { "medium"@ } else { "high"@ }
}

/// The structure of an expression: its path segments (dots plus one), the
/// functions it calls, whether it uses collections, its kind and a label.
pub fn analyze_expression_structure(expression: &str, functions: &Vec<String>) -> (r: ExpressionAnalysis)
    requires
        expression@.len() < usize::MAX,
    ensures
        r.path_segments == count_char(expression@, '.') + 1,
        r.function_count == functions@.len(),
        r.uses_collections == uses_collections(expression@, functions@),
        r.expression_type@ == expression_type(functions@),
        r.complexity@ == structure_label(structure_score(r.path_segments as nat, r.function_count as nat, r.uses_collections)),
{
    let cs = chars_of(expression);
    let path_segments = count_of(&cs, '.') + 1;
    let function_count = functions.len();
    let collections = count_of(&cs, '[') > 0 || contains_name(functions, "where") || contains_name(functions, "select")
        || contains_name(functions, "all") || contains_name(functions, "any") || contains_name(functions, "distinct");
    let kind = if contains_name(functions, "where") || contains_name(functions, "exists") || contains_name(functions, "empty") {
        owned("filter")
    } else if contains_name(functions, "count") || contains_name(functions, "sum") || contains_name(functions, "avg") {
        owned("aggregation")
    } else if contains_name(functions, "select") || contains_name(functions, "first") || contains_name(functions, "last") {
        owned("transformation")
    } else {
        owned("query")
    };
    let score: u128 = path_segments as u128 + 2 * (function_count as u128) + if collections { 2 } else { 0 };
    let complexity = if score < 3 {
        owned("low")
    } else if score < 8 {
        owned("medium")
    } else {
        owned("high")
    };
    ExpressionAnalysis { complexity, expression_type: kind, path_segments, function_count, uses_collections: collections }
}

/// The performance score: one, plus the path segments, two per function,
/// two for collections, one for `where` or `select`, one for more than 50
/// bytes; at most 10.
pub open spec fn performance_score(expression_len: nat, functions: Seq<String>, analysis: ExpressionAnalysis) -> nat {
    let raw = 1 + analysis.path_segments + 2 * analysis.function_count + (if analysis.uses_collections { 2nat } else { 0nat })
        + (if named(functions, "where"@) || named(functions, "select"@) { 1nat } else { 0nat })
        + (if expression_len > 50 { 1nat } else { 0nat });
    if raw < 10 { raw as nat } else { 10 }
}

pub open spec fn performance_category(score: nat) -> Seq<char> {
    if score <= 3 { "fast"@ } else if score <= 6 { "moderate"@ } else if score <= 8 { "slow"@ } else { "very_slow"@ }
}

/// A performance estimate from the expression's structure.
pub fn predict_performance(expression: &str, functions: &Vec<String>, analysis: &ExpressionAnalysis) -> (r: PerformancePrediction)
    ensures
        r.complexity_score as nat == performance_score(expression.len() as nat, functions@, *analysis),
        r.performance_category@ == performance_category(r.complexity_score as nat),
        r.suggestions@.len() >= 1,
        analysis.uses_collections ==> r.suggestions@[0]@ == "Consider using specific indexes instead of filtering entire collections"@,
        !analysis.uses_collections && expression.len() <= 50 ==> r.suggestions@.len() == 1
            && r.suggestions@[0]@ == "Expression looks well-optimized"@,
{
    let mut suggestions: Vec<String> = Vec::new();
    let mut raw: u128 = 1 + analysis.path_segments as u128 + 2 * (analysis.function_count as u128);
    if analysis.uses_collections {
        raw = raw + 2;
        suggestions.push(owned("Consider using specific indexes instead of filtering entire collections"));
    }
    if contains_name(functions, "where") || contains_name(functions, "select") {
        raw = raw + 1;
    }
    if expression.len() > 50 {
        raw = raw + 1;
        suggestions.push(owned("Consider breaking down long expressions into smaller parts"));
    }
    let score: u8 = if raw < 10 { raw as u8 } else { 10 };
    let category = if score <= 3 {
        owned("fast")
    } else if score <= 6 {
        owned("moderate")
    } else if score <= 8 {
        owned("slow")
    } else {
        owned("very_slow")
    };
    if suggestions.len() == 0 {
        suggestions.push(owned("Expression looks well-optimized"));
    }
    PerformancePrediction { complexity_score: score, performance_category: category, suggestions }
}

/// Information about an evaluated expression.
#[derive(Debug, Clone, PartialEq)]
pub struct ExpressionInfo {
    pub parsed: bool,
    pub complexity: String,
    pub ast_node_count: Option<usize>,
}

/// The evaluation tool's own analysis of expressions.
#[derive(Debug, Clone, Copy)]
pub struct FhirPathEvaluateTool {}

impl FhirPathEvaluateTool {
    pub fn new() -> (r: Result<FhirPathEvaluateTool, String>)
        ensures
            r is Ok,
    {
        Ok(FhirPathEvaluateTool {})
    }

    /// The complexity label of `assess_complexity`.
    pub fn assess_complexity(&self, expression: &str) -> (r: String)
        ensures
            r@ == complexity_label(
                expression.len() as nat,
                count_char(expression@, '('),
                count_operators(expression@),
                50,
                2,
            ),
    {
        assess_complexity(expression)
    }
}

/// The position of the first byte `b` in `bytes`.
pub open spec fn first_byte(bytes: Seq<u8>, b: u8) -> Option<int>
    decreases bytes.len(),
{
    if bytes.len() == 0 {
        None
    } else {
        match first_byte(bytes.drop_last(), b) {
            Some(i) => Some(i),
            None => if bytes.last() == b { Some(bytes.len() - 1) } else { None },
        }
    }
}

fn find_byte(bytes: &[u8], b: u8) -> (r: Option<usize>)
    ensures
        match first_byte(bytes@, b) {
            Some(i) => 0 <= i < bytes@.len() && r == Some(i as usize),
            None => r is None,
        },
        r matches Some(i) ==> i < bytes@.len(),
{
    proof {
        lemma_first_byte_range(bytes@, b);
    }
    let mut i: usize = 0;
    while i < bytes.len()
        invariant
            i <= bytes@.len(),
            first_byte(bytes@.take(i as int), b) is None,
        decreases bytes.len() - i,
    {
        proof {
            assert(bytes@.take(i + 1).drop_last() =~= bytes@.take(i as int));
        }
        if bytes[i] == b {
            proof {
                lemma_first_byte_prefix(bytes@, b, i as int + 1);
            }
            return Some(i);
        }
        i = i + 1;
    }
    proof {
        assert(bytes@.take(i as int) =~= bytes@);
    }
    None
}

proof fn lemma_first_byte_range(s: Seq<u8>, b: u8)
    ensures
        first_byte(s, b) matches Some(i) ==> 0 <= i < s.len(),
    decreases s.len(),
{
    if s.len() > 0 {
        lemma_first_byte_range(s.drop_last(), b);
    }
}

proof fn lemma_first_byte_prefix(s: Seq<u8>, b: u8, k: int)
    requires
        0 <= k <= s.len(),
        first_byte(s.take(k), b) is Some,
    ensures
        first_byte(s, b) == first_byte(s.take(k), b),
    decreases s.len() - k,
{
    if k < s.len() {
        assert(s.take(k + 1).drop_last() =~= s.take(k));
        lemma_first_byte_prefix(s, b, k + 1);
    } else {
        assert(s.take(k) =~= s);
    }
}

/// The explanation of a valid expression, by the first pattern it shows.
pub open spec fn syntax_explanation(e: Seq<char>) -> Seq<char> {
    if occurs_in(".first()"@, e) {
        "Selects the first element from a collection"@
    } else if occurs_in(".last()"@, e) {
        "Selects the last element from a collection"@
    } else if occurs_in(".exists()"@, e) {
        "Checks if any elements exist in the collection"@
    } else if occurs_in(".empty()"@, e) {
        "Checks if the collection is empty"@
    } else if occurs_in(".count()"@, e) {
        "Returns the number of elements in the collection"@
    } else if occurs_in(".where("@, e) {
        "Filters the collection based on a condition"@
    } else if occurs_in(".select("@, e) {
        "Transforms each element in the collection"@
    } else if count_char(e, '.') > 0 {
        "Navigates through FHIR resource path: "@ + replace_all(e, "."@, " -> "@)
    } else {
        "Simple FHIRPath expression"@
    }
}

/// Whether an opening `open` has no closing `close` anywhere.
pub open spec fn unclosed(e: Seq<char>, open: char, close: char) -> bool {
    count_char(e, open) > 0 && count_char(e, close) == 0
}

/// The suggestion for a parse error, from the lower-cased error message.
pub open spec fn error_suggestion(lowered_error: Seq<char>, e: Seq<char>) -> Option<Seq<char>> {
    if occurs_in("unexpected end"@, lowered_error) {
        if unclosed(e, '(', ')') {
            Some("Complete the expression by adding a closing parenthesis ')'"@)
        } else if unclosed(e, '[', ']') {
            Some("Complete the expression by adding a closing bracket ']'"@)
        } else {
            Some("The expression appears to be incomplete"@)
        }
    } else if occurs_in("expected"@, lowered_error) {
        Some("Check the syntax around the error position"@)
    } else if occurs_in("invalid"@, lowered_error) {
        Some("Review the expression syntax according to FHIRPath specification"@)
    } else {
        None
    }
}

/// The suggestion for a parse error whose message is already lower-cased.
pub fn suggestion_for(lowered_error: &str, expression: &str) -> (r: Option<String>)
    ensures
        match error_suggestion(lowered_error@, expression@) {
            Some(t) => r matches Some(s) && s@ == t,
            None => r is None,
        },
{
    let cs = chars_of(expression);
    if contains_text(lowered_error, "unexpected end") {
        if count_of(&cs, '(') > 0 && count_of(&cs, ')') == 0 {
            Some(owned("Complete the expression by adding a closing parenthesis ')'"))
        } else if count_of(&cs, '[') > 0 && count_of(&cs, ']') == 0 {
            Some(owned("Complete the expression by adding a closing bracket ']'"))
        } else {
            Some(owned("The expression appears to be incomplete"))
        }
    } else if contains_text(lowered_error, "expected") {
        Some(owned("Check the syntax around the error position"))
    } else if contains_text(lowered_error, "invalid") {
        Some(owned("Review the expression syntax according to FHIRPath specification"))
    } else {
        None
    }
}

/// The parse tool's explanations of expressions and parse errors.
#[derive(Debug, Clone, Copy)]
pub struct FhirPathParseTool {}

impl FhirPathParseTool {
    pub fn new() -> (r: Result<FhirPathParseTool, String>)
        ensures
            r is Ok,
    {
        Ok(FhirPathParseTool {})
    }

    /// A short explanation of a valid expression.
    pub fn generate_syntax_explanation(&self, expression: &str) -> (r: String)
        ensures
            r@ == syntax_explanation(expression@),
    {
        proof {
            reveal_strlit(".");
        }
        if contains_text(expression, ".first()") {
            return owned("Selects the first element from a collection");
        }
        if contains_text(expression, ".last()") {
            return owned("Selects the last element from a collection");
        }
        if contains_text(expression, ".exists()") {
            return owned("Checks if any elements exist in the collection");
        }
        if contains_text(expression, ".empty()") {
            return owned("Checks if the collection is empty");
        }
        if contains_text(expression, ".count()") {
            return owned("Returns the number of elements in the collection");
        }
        if contains_text(expression, ".where(") {
            return owned("Filters the collection based on a condition");
        }
        if contains_text(expression, ".select(") {
            return owned("Transforms each element in the collection");
        }
        let cs = chars_of(expression);
        if count_of(&cs, '.') > 0 {
            let path = replace_text(&cs, &chars_of("."), &chars_of(" -> "));
            let mut r = owned("Navigates through FHIR resource path: ");
            crate::text::append_chars(&mut r, &path);
            r
        } else {
            owned("Simple FHIRPath expression")
        }
    }

    /// Where a parse error probably is: the end for an unexpected end; for
    /// an expectation, just after an unclosed parenthesis or bracket (byte
    /// positions).
    pub fn extract_error_position(&self, error_msg: &str, expression: &str) -> (r: Option<usize>)
        ensures
            occurs_in("unexpected end"@, error_msg@) ==> r == Some(expression.len()),
            !occurs_in("unexpected end"@, error_msg@) && occurs_in("expected"@, error_msg@) ==> r == if unclosed(
                expression@,
                '(',
                ')',
            ) {
                match first_byte(expression.spec_bytes(), 40u8) {
                    Some(i) => Some((i + 1) as usize),
                    None => None,
                }
            } else if unclosed(expression@, '[', ']') {
                match first_byte(expression.spec_bytes(), 91u8) {
                    Some(i) => Some((i + 1) as usize),
                    None => None,
                }
            } else {
                None::<usize>
            },
            !occurs_in("unexpected end"@, error_msg@) && !occurs_in("expected"@, error_msg@) ==> r is None,
    {
        if contains_text(error_msg, "unexpected end") {
            return Some(expression.len());
        }
        if contains_text(error_msg, "expected") {
            let cs = chars_of(expression);
            let bytes = expression.as_bytes();
            if count_of(&cs, '(') > 0 && count_of(&cs, ')') == 0 {
                match find_byte(bytes, 40u8) {
                    Some(i) => {
                        let n = bytes.len();
                        assert(i < n);
                        Some(i + 1)
                    },
                    None => None,
                }
            } else if count_of(&cs, '[') > 0 && count_of(&cs, ']') == 0 {
                match find_byte(bytes, 91u8) {
                    Some(i) => {
                        let n = bytes.len();
                        assert(i < n);
                        Some(i + 1)
                    },
                    None => None,
                }
            } else {
                None
            }
        } else {
            None
        }
    }

    /// A suggestion for fixing a parse error, judged on the message with
    /// letter case aside.
    pub fn generate_error_suggestion(&self, error_msg: &str, expression: &str) -> (r: Option<String>)
        ensures
            match error_suggestion(lower_of(error_msg@), expression@) {
                Some(t) => r matches Some(s) && s@ == t,
                None => r is None,
            },
    {
        let lowered = lowercase(error_msg);
        suggestion_for(lowered.as_str(), expression)
    }
}

} // verus!

//! Input validation for expressions and resources, and sanitising of
//! error messages.

use vstd::prelude::*;
use crate::json::JsonValue;
use vstd::utf8::encode_utf8;
use crate::text::{chars_of, owned, string_of};

verus! {

/// The lower-case form of a text, as `str::to_lowercase` gives it.
pub uninterp spec fn lower_of(s: Seq<char>) -> Seq<char>;

/// Relies on `str::to_lowercase`: the result depends on the characters alone.
#[verifier::external_body]
pub(crate) fn lowercase(s: &str) -> (r: String)
    ensures
        r@ == lower_of(s@),
{
    s.to_lowercase()
}

/// Whether `needle` occurs in `hay` as a run of consecutive characters.
pub open spec fn occurs_in(needle: Seq<char>, hay: Seq<char>) -> bool {
    exists|i: int| 0 <= i <= hay.len() - needle.len() && #[trigger] hay.subrange(i, i + needle.len()) == needle
}

/// Whether `needle` occurs in `hay` at position `i`.
pub open spec fn occurs_at(needle: Seq<char>, hay: Seq<char>, i: int) -> bool {
    0 <= i <= hay.len() - needle.len() && hay.subrange(i, i + needle.len()) == needle
}

fn matches_at(hay: &Vec<char>, needle: &Vec<char>, i: usize) -> (r: bool)
    requires
        i + needle@.len() <= hay@.len(),
    ensures
        r == (hay@.subrange(i as int, i + needle@.len()) == needle@),
{
    let mut j: usize = 0;
    while j < needle.len()
        invariant
            i + needle@.len() <= hay@.len(),
            j <= needle@.len(),
            forall|k: int| 0 <= k < j ==> hay@[i + k] == needle@[k],
        decreases needle.len() - j,
    {
        let hl = hay.len();
        assert(i + j < hl);
        let k: usize = i + j;
        if hay[k] != needle[j] {
            assert(hay@.subrange(i as int, i + needle@.len())[j as int] != needle@[j as int]);
            return false;
        }
        j = j + 1;
    }
    assert(hay@.subrange(i as int, i + needle@.len()) =~= needle@);
    true
}

/// Whether `needle` occurs in `hay`.
pub fn contains_text(hay: &str, needle: &str) -> (r: bool)
    ensures
        r == occurs_in(needle@, hay@),
{
    let h = chars_of(hay);
    let n = chars_of(needle);
    if n.len() > h.len() {
        return false;
    }
    let last: usize = h.len() - n.len();
    let mut i: usize = 0;
    while i < last
        invariant
            h@ == hay@,
            n@ == needle@,
            n@.len() <= h@.len(),
            last == h@.len() - n@.len(),
            i <= last,
            forall|k: int| 0 <= k < i ==> #[trigger] h@.subrange(k, k + n@.len()) != n@,
        decreases last - i,
    {
        if matches_at(&h, &n, i) {
            return true;
        }
        i = i + 1;
    }
    matches_at(&h, &n, last)
}

/// The position of the first candidate that occurs in `text`.
pub fn first_contained(text: &str, candidates: &Vec<String>) -> (r: Option<usize>)
    ensures
        match r {
            Some(i) => i < candidates@.len() && occurs_in(candidates@[i as int]@, text@)
                && forall|j: int| 0 <= j < i ==> !occurs_in(#[trigger] candidates@[j]@, text@),
            None => forall|j: int| 0 <= j < candidates@.len() ==> !occurs_in(#[trigger] candidates@[j]@, text@),
        },
{
    let mut i: usize = 0;
    while i < candidates.len()
        invariant
            i <= candidates@.len(),
            forall|j: int| 0 <= j < i ==> !occurs_in(#[trigger] candidates@[j]@, text@),
        decreases candidates.len() - i,
    {
        if contains_text(text, candidates[i].as_str()) {
            return Some(i);
        }
        i = i + 1;
    }
    None
}

/// The nesting state after reading some characters of an expression:
/// current depth, deepest depth, inside quotes, and a pending escape.
pub struct DepthScan {
    pub depth: nat,
    pub max_depth: nat,
    pub in_quotes: bool,
    pub escape: bool,
}

/// How one character moves the nesting state. A backslash escapes the next
/// character; quotes toggle quoting; brackets outside quotes open and close
/// levels, never below zero.
pub open spec fn depth_step(st: DepthScan, c: char) -> DepthScan {
    if st.escape {
        DepthScan { escape: false, ..st }
    } else if c == '\\' {
        DepthScan { escape: true, ..st }
    } else if c == '\'' || c == '"' {
        DepthScan { in_quotes: !st.in_quotes, ..st }
    } else if !st.in_quotes && (c == '(' || c == '[' || c == '{') {
        let d = st.depth + 1;
        DepthScan { depth: d, max_depth: if d > st.max_depth { d } else { st.max_depth }, ..st }
    } else if !st.in_quotes && (c == ')' || c == ']' || c == '}') {
        DepthScan { depth: if st.depth == 0 { 0 } else { (st.depth - 1) as nat }, ..st }
    } else {
        st
    }
}

pub open spec fn depth_scan(s: Seq<char>) -> DepthScan
    decreases s.len(),
{
    if s.len() == 0 {
        DepthScan { depth: 0, max_depth: 0, in_quotes: false, escape: false }
    } else {
        depth_step(depth_scan(s.drop_last()), s.last())
    }
}

/// The deepest bracket nesting of an expression, outside quotes.
pub open spec fn expression_depth(s: Seq<char>) -> nat {
    depth_scan(s).max_depth
}

proof fn lemma_depth_bounded(s: Seq<char>)
    ensures
        depth_scan(s).depth <= depth_scan(s).max_depth <= s.len(),
    decreases s.len(),
{
    if s.len() > 0 {
        lemma_depth_bounded(s.drop_last());
    }
}

/// The characters that `char::is_whitespace` accepts (Unicode White_Space).
pub open spec fn is_white(c: char) -> bool {
    ('\u{9}' <= c <= '\u{d}') || c == ' ' || c == '\u{85}' || c == '\u{a0}' || c == '\u{1680}'
        || ('\u{2000}' <= c <= '\u{200a}') || c == '\u{2028}' || c == '\u{2029}' || c == '\u{202f}'
        || c == '\u{205f}' || c == '\u{3000}'
}

fn white(c: char) -> (r: bool)
    ensures
        r == is_white(c),
{
    ('\u{9}' <= c && c <= '\u{d}') || c == ' ' || c == '\u{85}' || c == '\u{a0}' || c == '\u{1680}'
        || ('\u{2000}' <= c && c <= '\u{200a}') || c == '\u{2028}' || c == '\u{2029}' || c == '\u{202f}'
        || c == '\u{205f}' || c == '\u{3000}'
}

/// Whether a character survives expression sanitising: a printable ASCII
/// character or ASCII whitespace other than carriage return.
pub open spec fn kept_in_expression(c: char) -> bool {
    ('!' <= c <= '~') || c == ' ' || c == '\t' || c == '\n' || c == '\u{c}'
}

/// The run of `s` left after dropping whitespace at both ends.
pub open spec fn trimmed(s: Seq<char>, start: int, end: int) -> bool {
    &&& 0 <= start <= end <= s.len()
    &&& forall|i: int| 0 <= i < start ==> is_white(#[trigger] s[i])
    &&& forall|i: int| end <= i < s.len() ==> is_white(#[trigger] s[i])
    &&& start < end ==> !is_white(s[start]) && !is_white(s[end - 1])
}

/// What expression sanitising keeps of a trimmed text.
pub open spec fn kept_chars(s: Seq<char>) -> Seq<char>
    decreases s.len(),
{
    if s.len() == 0 {
        Seq::empty()
    } else if kept_in_expression(s.last()) {
        kept_chars(s.drop_last()).push(s.last())
    } else {
        kept_chars(s.drop_last())
    }
}

/// Whether `r` is `s` sanitised: trimmed at both ends, then only the kept characters.
pub open spec fn sanitized_expression(s: Seq<char>, r: Seq<char>) -> bool {
    exists|start: int, end: int| trimmed(s, start, end) && r == kept_chars(#[trigger] s.subrange(start, end))
}

/// Settings of the input validator. `blacklisted_functions` is a set.
#[derive(Debug, Clone)]
pub struct ValidationConfig {
    pub max_expression_length: usize,
    pub max_expression_depth: usize,
    pub max_resource_size: usize,
    pub enable_expression_blacklist: bool,
    pub blacklisted_functions: Vec<String>,
}

impl Default for ValidationConfig {
    fn default() -> (r: ValidationConfig)
        ensures
            r.max_expression_length == 1000,
            r.max_expression_depth == 10,
            r.max_resource_size == 1024 * 1024,
            r.enable_expression_blacklist,
            r.blacklisted_functions@.len() == 4,
            r.blacklisted_functions@[0]@ == "eval"@,
            r.blacklisted_functions@[1]@ == "system"@,
            r.blacklisted_functions@[2]@ == "exec"@,
            r.blacklisted_functions@[3]@ == "shell"@,
    {
        let mut b: Vec<String> = Vec::new();
        b.push(owned("eval"));
        b.push(owned("system"));
        b.push(owned("exec"));
        b.push(owned("shell"));
        ValidationConfig {
            max_expression_length: 1000,
            max_expression_depth: 10,
            max_resource_size: 1024 * 1024,
            enable_expression_blacklist: true,
            blacklisted_functions: b,
        }
    }
}

/// Why an input was refused.
#[derive(Debug, Clone, PartialEq)]
pub enum ValidationError {
    ExpressionTooLong { length: usize, max: usize },
    EmptyExpression,
    ExpressionTooDeep { depth: usize, max: usize },
    BlacklistedFunction(String),
    ResourceTooLarge { size: usize, max: usize },
    ResourceNotObject,
    KeyTooLong(usize),
    ArrayTooLarge(usize),
    StringTooLong(usize),
}

/// Whether a JSON document keeps within the structural limits: keys of at
/// most 255 characters, arrays of at most 10000 items, strings of at most
/// 100000 characters, at every depth.
pub open spec fn structure_ok(v: JsonValue) -> bool
    decreases v, 1int,
{
    match v {
        JsonValue::Object(f) => fields_ok(f),
        JsonValue::Array(a) => items_ok(a),
        JsonValue::Str(s) => s@.len() <= 100000,
        _ => true,
    }
}

/// Every key of at most 255 characters, every value within the limits.
pub open spec fn fields_ok(f: Vec<(String, JsonValue)>) -> bool
    decreases f, 0int,
{
    forall|i: int| 0 <= i < f@.len() ==> (#[trigger] f@[i]).0@.len() <= 255 && structure_ok(f@[i].1)
}

/// At most 10000 items, every one within the limits.
pub open spec fn items_ok(a: Vec<JsonValue>) -> bool
    decreases a, 0int,
{
    a@.len() <= 10000 && forall|i: int| 0 <= i < a@.len() ==> structure_ok(#[trigger] a@[i])
}

/// A string with NUL, carriage-return and byte-order-mark characters removed.
pub open spec fn clean_text(s: Seq<char>) -> Seq<char>
    decreases s.len(),
{
    if s.len() == 0 {
        Seq::empty()
    } else if s.last() == '\0' || s.last() == '\r' || s.last() == '\u{feff}' {
        clean_text(s.drop_last())
    } else {
        clean_text(s.drop_last()).push(s.last())
    }
}

/// Whether `r` is `v` with every string, at every depth, cleaned.
pub open spec fn sanitized_as(v: JsonValue, r: JsonValue) -> bool
    decreases v,
{
    match v {
        JsonValue::Str(s) => r matches JsonValue::Str(t) && t@ == clean_text(s@),
        JsonValue::Array(a) => r matches JsonValue::Array(b) && b@.len() == a@.len() && forall|i: int|
            0 <= i < a@.len() ==> sanitized_as(#[trigger] a@[i], b@[i]),
        JsonValue::Object(f) => r matches JsonValue::Object(g) && g@.len() == f@.len() && forall|i: int|
            0 <= i < f@.len() ==> (#[trigger] g@[i]).0@ == f@[i].0@ && sanitized_as(f@[i].1, g@[i].1),
        JsonValue::Decimal(d) => r matches JsonValue::Decimal(e) && e@ == d@,
        JsonValue::Null => r == JsonValue::Null,
        JsonValue::Bool(b) => r == JsonValue::Bool(b),
        JsonValue::UInt(n) => r == JsonValue::UInt(n),
        JsonValue::Int(n) => r == JsonValue::Int(n),
    }
}

fn clean_string(s: &String) -> (r: String)
    ensures
        r@ == clean_text(s@),
{
    let cs = chars_of(s.as_str());
    let mut out: Vec<char> = Vec::new();
    let mut i: usize = 0;
    while i < cs.len()
        invariant
            i <= cs@.len(),
            out@ == clean_text(cs@.take(i as int)),
        decreases cs.len() - i,
    {
        proof {
            assert(cs@.take(i + 1).drop_last() =~= cs@.take(i as int));
        }
        let c = cs[i];
        if !(c == '\0' || c == '\r' || c == '\u{feff}') {
            out.push(c);
        }
        i = i + 1;
    }
    proof {
        assert(cs@.take(i as int) =~= cs@);
    }
    string_of(&out)
}

/// Checks the structural limits of a JSON document at every depth.
pub fn validate_json_structure(value: &JsonValue) -> (r: Result<(), ValidationError>)
    ensures
        r is Ok <==> structure_ok(*value),
        r matches Err(e) ==> (e is KeyTooLong || e is ArrayTooLarge || e is StringTooLong),
    decreases value,
{
    match value {
        JsonValue::Object(f) => {
            let mut i: usize = 0;
            while i < f.len()
                invariant
                    *value == JsonValue::Object(*f),
                    i <= f@.len(),
                    forall|j: int| 0 <= j < i ==> (#[trigger] f@[j]).0@.len() <= 255 && structure_ok(f@[j].1),
                decreases f.len() - i,
            {
                let n = crate::text::chars_of(f[i].0.as_str()).len();
                if n > 255 {
                    assert((f@[i as int]).0@.len() > 255);

                    return Err(ValidationError::KeyTooLong(n));
                }
                proof {
                    assert(decreases_to!(*value => (*value)->Object_0));
                    assert(decreases_to!(*f => f@));
                    assert(decreases_to!(f@ => f@[i as int]));
                    assert(decreases_to!(f@[i as int] => f@[i as int].1));
                }
                match validate_json_structure(&f[i].1) {
                    Err(e) => {
                        return Err(e);
                    },
                    Ok(()) => {},
                }
                i = i + 1;
            }
            Ok(())
        },
        JsonValue::Array(a) => {
            if a.len() > 10000 {
                return Err(ValidationError::ArrayTooLarge(a.len()));
            }
            let mut i: usize = 0;
            while i < a.len()
                invariant
                    *value == JsonValue::Array(*a),
                    i <= a@.len(),
                    forall|j: int| 0 <= j < i ==> structure_ok(#[trigger] a@[j]),
                decreases a.len() - i,
            {
                proof {
                    assert(decreases_to!(*value => (*value)->Array_0));
                    assert(decreases_to!(*a => a@));
                    assert(decreases_to!(a@ => a@[i as int]));
                }
                match validate_json_structure(&a[i]) {
                    Err(e) => {
                        return Err(e);
                    },
                    Ok(()) => {},
                }
                i = i + 1;
            }
            Ok(())
        },
        JsonValue::Str(s) => {
            let n = crate::text::chars_of(s.as_str()).len();
            if n > 100000 {
                Err(ValidationError::StringTooLong(n))
            } else {
                Ok(())
            }
        },
        _ => Ok(()),
    }
}

/// A copy of a JSON document with NUL, carriage-return and byte-order-mark
/// characters removed from every string.
pub fn sanitize_json_value(value: &JsonValue) -> (r: JsonValue)
    ensures
        sanitized_as(*value, r),
    decreases value,
{
    match value {
        JsonValue::Str(s) => JsonValue::Str(clean_string(s)),
        JsonValue::Array(a) => {
            let mut out: Vec<JsonValue> = Vec::new();
            let mut i: usize = 0;
            while i < a.len()
                invariant
                    *value == JsonValue::Array(*a),
                    i <= a@.len(),
                    out@.len() == i,
                    forall|j: int| 0 <= j < i ==> sanitized_as(#[trigger] a@[j], out@[j]),
                decreases a.len() - i,
            {
                proof {
                    assert(decreases_to!(*value => (*value)->Array_0));
                    assert(decreases_to!(*a => a@));
                    assert(decreases_to!(a@ => a@[i as int]));
                }
                out.push(sanitize_json_value(&a[i]));
                i = i + 1;
            }
            JsonValue::Array(out)
        },
        JsonValue::Object(f) => {
            let mut out: Vec<(String, JsonValue)> = Vec::new();
            let mut i: usize = 0;
            while i < f.len()
                invariant
                    *value == JsonValue::Object(*f),
                    i <= f@.len(),
                    out@.len() == i,
                    forall|j: int| 0 <= j < i ==> (#[trigger] out@[j]).0@ == f@[j].0@ && sanitized_as(f@[j].1, out@[j].1),
                decreases f.len() - i,
            {
                proof {
                    assert(decreases_to!(*value => (*value)->Object_0));
                    assert(decreases_to!(*f => f@));
                    assert(decreases_to!(f@ => f@[i as int]));
                    assert(decreases_to!(f@[i as int] => f@[i as int].1));
                }
                let v = sanitize_json_value(&f[i].1);
                out.push((f[i].0.clone(), v));
                i = i + 1;
            }
            JsonValue::Object(out)
        },
        JsonValue::Decimal(d) => JsonValue::Decimal(d.clone()),
        JsonValue::Null => JsonValue::Null,
        JsonValue::Bool(b) => JsonValue::Bool(*b),
        JsonValue::UInt(n) => JsonValue::UInt(*n),
        JsonValue::Int(n) => JsonValue::Int(*n),
    }
}

pub struct InputValidator {
    config: ValidationConfig,
}

impl InputValidator {
    pub closed spec fn config(&self) -> ValidationConfig {
        self.config
    }

    /// Whether the expression names a blacklisted function, letter case aside.
    pub open spec fn names_blacklisted(&self, expression: Seq<char>) -> bool {
        exists|i: int| 0 <= i < self.config().blacklisted_functions@.len()
            && occurs_in(lower_of((#[trigger] self.config().blacklisted_functions@[i])@), lower_of(expression))
    }

    /// Whether an expression passes: at most the maximum length in UTF-8
    /// bytes, not empty, not nested too deep, and naming no blacklisted
    /// function when the blacklist is on.
    pub open spec fn expression_accepted(&self, e: Seq<char>) -> bool {
        &&& encode_utf8(e).len() <= self.config().max_expression_length
        &&& e.len() > 0
        &&& expression_depth(e) <= self.config().max_expression_depth
        &&& !(self.config().enable_expression_blacklist && self.names_blacklisted(e))
    }

    /// Whether a resource whose compact JSON text is `encoded_len` bytes long passes.
    pub open spec fn resource_accepted(&self, resource: JsonValue, encoded_len: nat) -> bool {
        encoded_len <= self.config().max_resource_size && resource is Object && structure_ok(resource)
    }

    pub fn new(config: ValidationConfig) -> (r: InputValidator)
        ensures
            r.config() == config,
    {
        InputValidator { config }
    }

    /// The deepest bracket nesting outside quotes.
    pub fn calculate_expression_depth(&self, expression: &str) -> (r: usize)
        ensures
            r == expression_depth(expression@),
    {
        let cs = chars_of(expression);
        let mut depth: usize = 0;
        let mut max_depth: usize = 0;
        let mut in_quotes = false;
        let mut escape_next = false;
        let mut i: usize = 0;
        while i < cs.len()
            invariant
                cs@ == expression@,
                i <= cs@.len(),
                depth_scan(cs@.take(i as int)) == (DepthScan {
                    depth: depth as nat,
                    max_depth: max_depth as nat,
                    in_quotes,
                    escape: escape_next,
                }),
            decreases cs.len() - i,
        {
            proof {
                lemma_depth_bounded(cs@.take(i as int));
                assert(cs@.take(i as int + 1).drop_last() =~= cs@.take(i as int));
            }
            let ch = cs[i];
            if escape_next {
                escape_next = false;
            } else if ch == '\\' {
                escape_next = true;
            } else if ch == '\'' || ch == '"' {
                in_quotes = !in_quotes;
            } else if !in_quotes && (ch == '(' || ch == '[' || ch == '{') {
                depth = depth + 1;
                if depth > max_depth {
                    max_depth = depth;
                }
            } else if !in_quotes && (ch == ')' || ch == ']' || ch == '}') {
                if depth > 0 {
                    depth = depth - 1;
                }
            }
            i = i + 1;
        }
        proof {
            assert(cs@.take(i as int) =~= cs@);
        }
        max_depth
    }

    /// Refuses an expression that names a blacklisted function, letter case aside.
    pub fn check_blacklisted_functions(&self, expression: &str) -> (r: Result<(), ValidationError>)
        ensures
            r is Ok <==> !self.names_blacklisted(expression@),
            r matches Err(e) ==> e matches ValidationError::BlacklistedFunction(name) && exists|i: int|
                0 <= i < self.config().blacklisted_functions@.len()
                && (#[trigger] self.config().blacklisted_functions@[i])@ == name@
                && occurs_in(lower_of(name@), lower_of(expression@)),
    {
        let lowered = lowercase(expression);
                let mut lowered_names: Vec<String> = Vec::new();
        let mut i: usize = 0;
        while i < self.config.blacklisted_functions.len()
            invariant
                i <= self.config.blacklisted_functions@.len(),
                lowered_names@.len() == i,
                forall|j: int| 0 <= j < i ==> (#[trigger] lowered_names@[j])@ == lower_of(
                    self.config.blacklisted_functions@[j]@,
                ),
            decreases self.config.blacklisted_functions.len() - i,
        {
            lowered_names.push(lowercase(self.config.blacklisted_functions[i].as_str()));
            i = i + 1;
        }
        match first_contained(lowered.as_str(), &lowered_names) {
            Some(k) => {
                proof {
                    assert(lowered_names@[k as int]@ == lower_of(self.config.blacklisted_functions@[k as int]@));
                    assert(occurs_in(lower_of(self.config.blacklisted_functions@[k as int]@), lower_of(expression@)));
                    assert(self.config() == self.config);
                    assert(self.config().blacklisted_functions@[k as int] == self.config.blacklisted_functions@[k as int]);
                    assert(self.names_blacklisted(expression@));
                }
                Err(ValidationError::BlacklistedFunction(self.config.blacklisted_functions[k].clone()))
            },
            None => {
                proof {
                    assert forall|j: int| 0 <= j < self.config.blacklisted_functions@.len() implies !occurs_in(
                        lower_of((#[trigger] self.config.blacklisted_functions@[j])@),
                        lower_of(expression@),
                    ) by {
                        assert(lowered_names@[j]@ == lower_of(self.config.blacklisted_functions@[j]@));
                    }
                    assert(!self.names_blacklisted(expression@));
                }
                Ok(())
            },
        }
    }

    /// Trims whitespace at both ends, then keeps only printable ASCII and
    /// ASCII whitespace other than carriage returns.
    pub fn sanitize_expression(&self, expression: &str) -> (r: String)
        ensures
            sanitized_expression(expression@, r@),
    {
        let cs = chars_of(expression);
        let mut start: usize = 0;
        while start < cs.len() && white(cs[start])
            invariant
                cs@ == expression@,
                start <= cs@.len(),
                forall|i: int| 0 <= i < start ==> is_white(#[trigger] cs@[i]),
            decreases cs.len() - start,
        {
            start = start + 1;
        }
        let mut end: usize = cs.len();
        while end > start && white(cs[end - 1])
            invariant
                cs@ == expression@,
                start <= end <= cs@.len(),
                forall|i: int| end <= i < cs@.len() ==> is_white(#[trigger] cs@[i]),
            decreases end,
        {
            end = end - 1;
        }
        let mut out: Vec<char> = Vec::new();
        let mut i: usize = start;
        while i < end
            invariant
                cs@ == expression@,
                start <= i <= end <= cs@.len(),
                out@ == kept_chars(cs@.subrange(start as int, i as int)),
            decreases end - i,
        {
            proof {
                assert(cs@.subrange(start as int, i + 1).drop_last() =~= cs@.subrange(start as int, i as int));
            }
            let c = cs[i];
            if ('!' <= c && c <= '~') || c == ' ' || c == '\t' || c == '\n' || c == '\u{c}' {
                out.push(c);
            }
            i = i + 1;
        }
        proof {
            assert(trimmed(expression@, start as int, end as int));
        }
        string_of(&out)
    }

    /// Checks a resource: its encoded size (the length of its compact JSON
    /// text, `encoded_len`), that it is an object, and the structural limits;
    /// returns it with its strings cleaned.
    pub fn validate_fhir_resource(&self, resource: &JsonValue, encoded_len: usize) -> (r: Result<JsonValue, ValidationError>)
        ensures
            encoded_len > self.config().max_resource_size ==> r == Err::<JsonValue, ValidationError>(
                ValidationError::ResourceTooLarge { size: encoded_len, max: self.config().max_resource_size },
            ),
            encoded_len <= self.config().max_resource_size && !(*resource is Object) ==> r
                == Err::<JsonValue, ValidationError>(ValidationError::ResourceNotObject),
            r is Ok <==> self.resource_accepted(*resource, encoded_len as nat),
            r matches Ok(v) ==> sanitized_as(*resource, v),
    {
        if encoded_len > self.config.max_resource_size {
            return Err(ValidationError::ResourceTooLarge { size: encoded_len, max: self.config.max_resource_size });
        }
        match resource {
            JsonValue::Object(_) => {},
            _ => {
                return Err(ValidationError::ResourceNotObject);
            },
        }
        match validate_json_structure(resource) {
            Err(e) => Err(e),
            Ok(()) => Ok(sanitize_json_value(resource)),
        }
    }

    /// Checks length (in bytes), emptiness, nesting depth and the blacklist,
    /// in that order, and returns the sanitised expression.
    pub fn validate_fhirpath_expression(&self, expression: &str) -> (r: Result<String, ValidationError>)
        ensures
            expression.len() > self.config().max_expression_length ==> r == Err::<String, ValidationError>(
                ValidationError::ExpressionTooLong { length: expression.len(), max: self.config().max_expression_length },
            ),
            expression.len() <= self.config().max_expression_length && expression@.len() == 0 ==> r
                == Err::<String, ValidationError>(ValidationError::EmptyExpression),
            expression.len() <= self.config().max_expression_length && expression@.len() > 0
                && expression_depth(expression@) > self.config().max_expression_depth ==> r
                == Err::<String, ValidationError>(ValidationError::ExpressionTooDeep {
                    depth: expression_depth(expression@) as usize,
                    max: self.config().max_expression_depth,
                }),
            r is Ok <==> self.expression_accepted(expression@),
            r matches Ok(s) ==> sanitized_expression(expression@, s@),
            r matches Err(e) && (e is BlacklistedFunction) ==> self.config().enable_expression_blacklist
                && self.names_blacklisted(expression@),
    {
        let length = expression.as_bytes().len();
        proof {
            assert(expression.len() == length);
        }
        if length > self.config.max_expression_length {
            return Err(ValidationError::ExpressionTooLong { length, max: self.config.max_expression_length });
        }
        if expression.is_empty() {
            return Err(ValidationError::EmptyExpression);
        }
        let depth = self.calculate_expression_depth(expression);
        if depth > self.config.max_expression_depth {
            return Err(ValidationError::ExpressionTooDeep { depth, max: self.config.max_expression_depth });
        }
        if self.config.enable_expression_blacklist {
            match self.check_blacklisted_functions(expression) {
                Err(e) => {
                    return Err(e);
                },
                Ok(()) => {},
            }
        }
        Ok(self.sanitize_expression(expression))
    }
}

} // verus!

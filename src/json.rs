//! A JSON document as plain values, and the field access the codec needs.

use vstd::prelude::*;
use crate::text::{owned, same_text};

verus! {

/// A JSON value. Numbers keep what they are: an unsigned integer, a negative
/// integer, or any other number as the text it was written with.
#[derive(Debug, PartialEq)]
pub enum JsonValue {
    Null,
    Bool(bool),
    UInt(u64),
    Int(i64),
    Decimal(String),
    Str(String),
    Array(Vec<JsonValue>),
    Object(Vec<(String, JsonValue)>),
}

/// The value of the first field named `key`, if any.
pub open spec fn field_of(fields: Seq<(String, JsonValue)>, key: Seq<char>) -> Option<JsonValue>
    decreases fields.len(),
{
    if fields.len() == 0 {
        None
    } else if fields[0].0@ == key {
        Some(fields[0].1)
    } else {
        field_of(fields.drop_first(), key)
    }
}

/// The member `key` of an object; nothing for other values.
pub open spec fn member(v: JsonValue, key: Seq<char>) -> Option<JsonValue> {
    match v {
        JsonValue::Object(f) => field_of(f@, key),
        _ => None,
    }
}

/// Whether some field is named `key`.
pub open spec fn has_field(fields: Seq<(String, JsonValue)>, key: Seq<char>) -> bool {
    field_of(fields, key).is_some()
}

proof fn lemma_field_of_skip(fields: Seq<(String, JsonValue)>, key: Seq<char>, i: int)
    requires
        0 <= i <= fields.len(),
        forall|j: int| 0 <= j < i ==> fields[j].0@ != key,
    ensures
        field_of(fields, key) == field_of(fields.skip(i), key),
    decreases i,
{
    if i > 0 {
        lemma_field_of_skip(fields.drop_first(), key, i - 1);
        assert(fields.drop_first().skip(i - 1) =~= fields.skip(i));
    } else {
        assert(fields.skip(0) =~= fields);
    }
}

/// Removing a field named otherwise leaves the first field named `key` as it was.
proof fn lemma_field_of_remove(fields: Seq<(String, JsonValue)>, key: Seq<char>, i: int)
    requires
        0 <= i < fields.len(),
        fields[i].0@ != key,
    ensures
        field_of(fields.remove(i), key) == field_of(fields, key),
    decreases i,
{
    if i > 0 {
        if fields[0].0@ != key {
            lemma_field_of_remove(fields.drop_first(), key, i - 1);
            assert(fields.remove(i).drop_first() =~= fields.drop_first().remove(i - 1));
        }
    } else {
        assert(fields.remove(0) =~= fields.drop_first());
    }
}

/// The position of the first field named `key`.
pub fn find_field(fields: &Vec<(String, JsonValue)>, key: &str) -> (r: Option<usize>)
    ensures
        match r {
            Some(i) => i < fields@.len() && fields@[i as int].0@ == key@
                && field_of(fields@, key@) == Some(fields@[i as int].1)
                && forall|j: int| 0 <= j < i ==> fields@[j].0@ != key@,
            None => field_of(fields@, key@).is_none(),
        },
{
    let mut i: usize = 0;
    while i < fields.len()
        invariant
            i <= fields@.len(),
            forall|j: int| 0 <= j < i ==> fields@[j].0@ != key@,
        decreases fields.len() - i,
    {
        if same_text(fields[i].0.as_str(), key) {
            proof {
                lemma_field_of_skip(fields@, key@, i as int);
            }
            return Some(i);
        }
        i = i + 1;
    }
    proof {
        lemma_field_of_skip(fields@, key@, i as int);
    }
    None
}

/// Takes out the first field named `key` and returns its value; the first
/// field of every other name stays as it was.
pub fn take_field(fields: &mut Vec<(String, JsonValue)>, key: &str) -> (r: Option<JsonValue>)
    ensures
        r == field_of(old(fields)@, key@),
        forall|k: Seq<char>| k != key@ ==> field_of(final(fields)@, k) == field_of(old(fields)@, k),
{
    match find_field(fields, key) {
        Some(i) => {
            let ghost before = fields@;
            let (_, v) = fields.remove(i);
            proof {
                assert forall|k: Seq<char>| k != key@ implies field_of(fields@, k) == field_of(before, k) by {
                    lemma_field_of_remove(before, k, i as int);
                }
            }
            Some(v)
        },
        None => None,
    }
}

/// Appends the field `key: value`.
pub fn put_field(fields: &mut Vec<(String, JsonValue)>, key: &str, value: JsonValue)
    ensures
        final(fields)@ == old(fields)@.push(final(fields)@.last()),
        final(fields)@.last().0@ == key@,
        final(fields)@.last().1 == value,
{
    fields.push((owned(key), value));
}

/// Appends the field `key: value` when a value is given.
pub fn put_optional(fields: &mut Vec<(String, JsonValue)>, key: &str, value: Option<JsonValue>)
    ensures
        value.is_none() ==> final(fields)@ == old(fields)@,
        value.is_some() ==> {
            &&& final(fields)@ == old(fields)@.push(final(fields)@.last())
            &&& final(fields)@.last().0@ == key@
            &&& final(fields)@.last().1 == value.unwrap()
        },
{
    match value {
        Some(v) => put_field(fields, key, v),
        None => {},
    }
}

} // verus!

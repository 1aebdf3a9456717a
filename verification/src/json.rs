//! JSON values as plain data, and reading typed members out of them.

use vstd::prelude::*;
use crate::double::Double;
use crate::text::same;

verus! {

/// A JSON number: its nearest double, and the whole number it was written as.
#[derive(Clone, Copy, Debug, PartialEq, Eq, Structural)]
pub struct Number {
    pub value: Double,
    pub whole: Option<i128>,
}

/// A JSON value. The names of an object's fields are distinct.
#[derive(Debug)]
pub enum JsonValue {
    Null,
    Bool(bool),
    Number(Number),
    Text(String),
    List(Vec<JsonValue>),
    Object(Vec<JsonField>),
}

/// A named member of a JSON object.
#[derive(Debug)]
pub struct JsonField {
    pub name: String,
    pub value: JsonValue,
}

/// The value of the field with the given name.
pub open spec fn lookup(fields: Seq<JsonField>, name: Seq<char>) -> Option<JsonValue>
    decreases fields.len(),
{
    if fields.len() == 0 {
        None
    } else if fields[0].name@ == name {
        Some(fields[0].value)
    } else {
        lookup(fields.subrange(1, fields.len() as int), name)
    }
}

pub open spec fn opt_deref(v: Option<&JsonValue>) -> Option<JsonValue> {
    match v {
        Some(x) => Some(*x),
        None => None,
    }
}

pub fn find<'a>(fields: &'a Vec<JsonField>, name: &str) -> (r: Option<&'a JsonValue>)
    ensures
        opt_deref(r) == lookup(fields@, name@),
{
    let mut i: usize = 0;
    assert(fields@.subrange(0, fields@.len() as int) =~= fields@);
    while i < fields.len()
        invariant
            i <= fields@.len(),
            lookup(fields@.subrange(i as int, fields@.len() as int), name@) == lookup(
                fields@,
                name@,
            ),
        decreases fields@.len() - i,
    {
        proof {
            let rest = fields@.subrange(i as int, fields@.len() as int);
            assert(rest.subrange(1, rest.len() as int) =~= fields@.subrange(
                i + 1,
                fields@.len() as int,
            ));
        }
        if same(fields[i].name.as_str(), name) {
            return Some(&fields[i].value);
        }
        i += 1;
    }
    None
}

/// The member of a record: by name in an object, by position in a list.
pub open spec fn member(value: JsonValue, position: int, name: Seq<char>) -> Option<JsonValue> {
    match value {
        JsonValue::Object(fields) => lookup(fields@, name),
        JsonValue::List(items) => if 0 <= position < items@.len() {
            Some(items@[position])
        } else {
            None
        },
        _ => None,
    }
}

/// The value can be read as a record: an object, or a list of as many items as the record has
/// members, of which those from `least` on may be left out.
pub open spec fn is_record(value: JsonValue, least: int, most: int) -> bool {
    match value {
        JsonValue::Object(_) => true,
        JsonValue::List(items) => least <= items@.len() <= most,
        _ => false,
    }
}

pub fn record_member<'a>(value: &'a JsonValue, position: usize, name: &str) -> (r: Option<
    &'a JsonValue,
>)
    ensures
        opt_deref(r) == member(*value, position as int, name@),
{
    match value {
        JsonValue::Object(fields) => find(fields, name),
        JsonValue::List(items) => if position < items.len() {
            Some(&items[position])
        } else {
            None
        },
        _ => None,
    }
}

pub fn record(value: &JsonValue, least: usize, most: usize) -> (r: bool)
    ensures
        r == is_record(*value, least as int, most as int),
{
    match value {
        JsonValue::Object(_) => true,
        JsonValue::List(items) => least <= items.len() && items.len() <= most,
        _ => false,
    }
}

/// A text member that must be there.
pub open spec fn text_of(v: Option<JsonValue>) -> Option<String> {
    match v {
        Some(JsonValue::Text(s)) => Some(s),
        _ => None,
    }
}

pub fn text_member(v: Option<&JsonValue>) -> (r: Option<String>)
    ensures
        r == text_of(opt_deref(v)),
{
    match v {
        Some(JsonValue::Text(s)) => Some(s.clone()),
        _ => None,
    }
}

/// A text member that may be missing or null.
pub open spec fn opt_text_of(v: Option<JsonValue>) -> Option<Option<String>> {
    match v {
        None => Some(None),
        Some(JsonValue::Null) => Some(None),
        Some(JsonValue::Text(s)) => Some(Some(s)),
        _ => None,
    }
}

pub fn opt_text_member(v: Option<&JsonValue>) -> (r: Option<Option<String>>)
    ensures
        r == opt_text_of(opt_deref(v)),
{
    match v {
        None => Some(None),
        Some(JsonValue::Null) => Some(None),
        Some(JsonValue::Text(s)) => Some(Some(s.clone())),
        _ => None,
    }
}

/// A number that must be there.
pub open spec fn double_of(v: Option<JsonValue>) -> Option<Double> {
    match v {
        Some(JsonValue::Number(n)) => Some(n.value),
        _ => None,
    }
}

pub fn double_member(v: Option<&JsonValue>) -> (r: Option<Double>)
    ensures
        r == double_of(opt_deref(v)),
{
    match v {
        Some(JsonValue::Number(n)) => Some(n.value),
        _ => None,
    }
}

/// A number that may be missing or null.
pub open spec fn opt_double_of(v: Option<JsonValue>) -> Option<Option<Double>> {
    match v {
        None => Some(None),
        Some(JsonValue::Null) => Some(None),
        Some(JsonValue::Number(n)) => Some(Some(n.value)),
        _ => None,
    }
}

pub fn opt_double_member(v: Option<&JsonValue>) -> (r: Option<Option<Double>>)
    ensures
        r == opt_double_of(opt_deref(v)),
{
    match v {
        None => Some(None),
        Some(JsonValue::Null) => Some(None),
        Some(JsonValue::Number(n)) => Some(Some(n.value)),
        _ => None,
    }
}

/// A 32-bit whole number that must be there.
pub open spec fn i32_of(v: Option<JsonValue>) -> Option<i32> {
    match v {
        Some(JsonValue::Number(n)) => match n.whole {
            Some(w) => if i32::MIN <= w <= i32::MAX {
                Some(w as i32)
            } else {
                None
            },
            None => None,
        },
        _ => None,
    }
}

pub fn i32_member(v: Option<&JsonValue>) -> (r: Option<i32>)
    ensures
        r == i32_of(opt_deref(v)),
{
    match v {
        Some(JsonValue::Number(n)) => match n.whole {
            Some(w) => if i32::MIN as i128 <= w && w <= i32::MAX as i128 {
                Some(w as i32)
            } else {
                None
            },
            None => None,
        },
        _ => None,
    }
}

/// A 64-bit whole number that may be missing or null.
pub open spec fn opt_i64_of(v: Option<JsonValue>) -> Option<Option<i64>> {
    match v {
        None => Some(None),
        Some(JsonValue::Null) => Some(None),
        Some(JsonValue::Number(n)) => match n.whole {
            Some(w) => if i64::MIN <= w <= i64::MAX {
                Some(Some(w as i64))
            } else {
                None
            },
            None => None,
        },
        _ => None,
    }
}

pub fn opt_i64_member(v: Option<&JsonValue>) -> (r: Option<Option<i64>>)
    ensures
        r == opt_i64_of(opt_deref(v)),
{
    match v {
        None => Some(None),
        Some(JsonValue::Null) => Some(None),
        Some(JsonValue::Number(n)) => match n.whole {
            Some(w) => if i64::MIN as i128 <= w && w <= i64::MAX as i128 {
                Some(Some(w as i64))
            } else {
                None
            },
            None => None,
        },
        _ => None,
    }
}

/// A truth value that must be there.
pub open spec fn bool_of(v: Option<JsonValue>) -> Option<bool> {
    match v {
        Some(JsonValue::Bool(b)) => Some(b),
        _ => None,
    }
}

pub fn bool_member(v: Option<&JsonValue>) -> (r: Option<bool>)
    ensures
        r == bool_of(opt_deref(v)),
{
    match v {
        Some(JsonValue::Bool(b)) => Some(*b),
        _ => None,
    }
}

/// A truth value that may be missing or null.
pub open spec fn opt_bool_of(v: Option<JsonValue>) -> Option<Option<bool>> {
    match v {
        None => Some(None),
        Some(JsonValue::Null) => Some(None),
        Some(JsonValue::Bool(b)) => Some(Some(b)),
        _ => None,
    }
}

pub fn opt_bool_member(v: Option<&JsonValue>) -> (r: Option<Option<bool>>)
    ensures
        r == opt_bool_of(opt_deref(v)),
{
    match v {
        None => Some(None),
        Some(JsonValue::Null) => Some(None),
        Some(JsonValue::Bool(b)) => Some(Some(*b)),
        _ => None,
    }
}

} // verus!

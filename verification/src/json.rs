//! A JSON document as plain values, and the field-by-name reading and writing that the
//! message types use to turn themselves into JSON objects and back.
use vstd::prelude::*;
use crate::text::str_equal;

verus! {

/// A JSON number: a non-negative integer, a negative integer, or any other number kept as
/// its decimal text.
#[derive(Debug, Clone, PartialEq)]
pub enum JsonNumber {
    PosInt(u64),
    NegInt(i64),
    Float(String),
}

/// A JSON document. An object keeps its members in order, as (name, value) pairs.
#[derive(Debug, PartialEq)]
pub enum JsonValue {
    Null,
    Bool(bool),
    Number(JsonNumber),
    Str(String),
    Array(Vec<JsonValue>),
    Object(Vec<(String, JsonValue)>),
}

/// The value of the first member named `key`, if any.
pub open spec fn lookup(fields: Seq<(String, JsonValue)>, key: Seq<char>) -> Option<JsonValue>
    decreases fields.len(),
{
    if fields.len() == 0 {
        None
    } else if fields[0].0@ == key {
        Some(fields[0].1)
    } else {
        lookup(fields.drop_first(), key)
    }
}

/// The member named `name` of `v`, if `v` is an object that has one (the first, if several).
pub open spec fn member(v: JsonValue, name: Seq<char>) -> Option<JsonValue> {
    match v {
        JsonValue::Object(f) => lookup(f@, name),
        _ => None,
    }
}

/// The text of the member named `name` of `v`, if it is there and is a string.
pub open spec fn member_text(v: JsonValue, name: Seq<char>) -> Option<String> {
    match member(v, name) {
        Some(x) => text_of(x),
        None => None,
    }
}

/// The port number of the member named `name` of `v`, if it is there and is an integer from
/// 0 to 65535.
pub open spec fn member_port(v: JsonValue, name: Seq<char>) -> Option<u16> {
    match member(v, name) {
        Some(x) => port_of(x),
        None => None,
    }
}

/// The text that a JSON value holds, if it is a string.
pub open spec fn text_of(v: JsonValue) -> Option<String> {
    match v {
        JsonValue::Str(s) => Some(s),
        _ => None,
    }
}

/// The port number that a JSON value holds, if it is an integer from 0 to 65535.
pub open spec fn port_of(v: JsonValue) -> Option<u16> {
    match v {
        JsonValue::Number(JsonNumber::PosInt(n)) => if n <= 65535 { Some(n as u16) } else { None },
        JsonValue::Number(JsonNumber::NegInt(n)) => if 0 <= n <= 65535 { Some(n as u16) } else { None },
        _ => None,
    }
}

/// The value that stands for field `name` at position `pos` of a record of `count` fields:
/// the member of that name in an object, or the element at that position in an array of
/// exactly `count` elements.
pub open spec fn field_value(v: JsonValue, name: Seq<char>, pos: int, count: int) -> Option<JsonValue> {
    match v {
        JsonValue::Object(f) => lookup(f@, name),
        JsonValue::Array(items) => if items@.len() == count && 0 <= pos < count {
            Some(items@[pos])
        } else {
            None
        },
        _ => None,
    }
}

/// The text of field `name` of a record, if it is there and is a string.
pub open spec fn text_field(v: JsonValue, name: Seq<char>, pos: int, count: int) -> Option<String> {
    match field_value(v, name, pos, count) {
        Some(x) => text_of(x),
        None => None,
    }
}

/// The port number of field `name` of a record, if it is there and is an integer in range.
pub open spec fn port_field(v: JsonValue, name: Seq<char>, pos: int, count: int) -> Option<u16> {
    match field_value(v, name, pos, count) {
        Some(x) => port_of(x),
        None => None,
    }
}

/// Whether a JSON value can stand for a record of `count` fields: any object, or an array
/// of exactly `count` elements.
pub open spec fn record_shape(v: JsonValue, count: int) -> bool {
    match v {
        JsonValue::Object(_) => true,
        JsonValue::Array(items) => items@.len() == count,
        _ => false,
    }
}

/// `v` is an object whose members are, in order, the given names with the given values.
pub open spec fn object_with(v: JsonValue, names: Seq<Seq<char>>, vals: Seq<JsonValue>) -> bool {
    match v {
        JsonValue::Object(f) => {
            &&& f@.len() == names.len()
            &&& vals.len() == names.len()
            &&& forall|i: int| 0 <= i < names.len() ==> #[trigger] f@[i].0@ == names[i] && f@[i].1 == vals[i]
        },
        _ => false,
    }
}

/// No name occurs twice.
pub open spec fn distinct_names(names: Seq<Seq<char>>) -> bool {
    forall|i: int, j: int| 0 <= i < j < names.len() ==> names[i] != names[j]
}

/// In an object whose members carry distinct names, each name finds its own member.
pub proof fn lemma_lookup_object_with(v: JsonValue, names: Seq<Seq<char>>, vals: Seq<JsonValue>, i: int)
    requires
        object_with(v, names, vals),
        distinct_names(names),
        0 <= i < names.len(),
    ensures
        v matches JsonValue::Object(f) && lookup(f@, names[i]) == Some(vals[i]),
{
    if let JsonValue::Object(f) = v {
        lemma_lookup_at(f@, i);
    }
}

proof fn lemma_lookup_at(f: Seq<(String, JsonValue)>, i: int)
    requires
        0 <= i < f.len(),
        forall|j: int| 0 <= j < i ==> f[j].0@ != f[i].0@,
    ensures
        lookup(f, f[i].0@) == Some(f[i].1),
    decreases i,
{
    if i > 0 {
        let g = f.drop_first();
        assert forall|j: int| 0 <= j < i - 1 implies #[trigger] g[j].0@ != g[i - 1].0@ by {
            assert(g[j] == f[j + 1]);
        }
        lemma_lookup_at(g, i - 1);
        assert(f[0].0@ != f[i].0@);
    }
}

/// The position of the first member named `key`.
pub fn find_key(fields: &Vec<(String, JsonValue)>, key: &str) -> (r: Option<usize>)
    ensures
        match r {
            Some(i) => i < fields@.len() && fields@[i as int].0@ == key@ && lookup(fields@, key@) == Some(fields@[i as int].1),
            None => lookup(fields@, key@) is None,
        },
{
    let mut i: usize = 0;
    assert(fields@.skip(0) =~= fields@);
    while i < fields.len()
        invariant
            i <= fields@.len(),
            lookup(fields@, key@) == lookup(fields@.skip(i as int), key@),
        decreases fields@.len() - i,
    {
        let ghost rest = fields@.skip(i as int);
        assert(rest[0] == fields@[i as int]);
        if str_equal(fields[i].0.as_str(), key) {
            return Some(i);
        }
        assert(rest.drop_first() =~= fields@.skip(i + 1));
        i = i + 1;
    }
    None
}

/// The value of field `name` at position `pos` of a record of `count` fields.
pub fn get_field<'a>(v: &'a JsonValue, name: &str, pos: usize, count: usize) -> (r: Option<&'a JsonValue>)
    ensures
        match r {
            Some(x) => field_value(*v, name@, pos as int, count as int) == Some(*x),
            None => field_value(*v, name@, pos as int, count as int) is None,
        },
{
    match v {
        JsonValue::Object(f) => match find_key(f, name) {
            Some(i) => Some(&f[i].1),
            None => None,
        },
        JsonValue::Array(items) => {
            if items.len() == count && pos < count {
                Some(&items[pos])
            } else {
                None
            }
        },
        _ => None,
    }
}

/// The text of field `name` of a record.
pub fn get_text_field(v: &JsonValue, name: &str, pos: usize, count: usize) -> (r: Option<String>)
    ensures
        r == text_field(*v, name@, pos as int, count as int),
{
    match get_field(v, name, pos, count) {
        Some(JsonValue::Str(s)) => Some(s.clone()),
        _ => None,
    }
}

/// The port number of field `name` of a record.
pub fn get_port_field(v: &JsonValue, name: &str, pos: usize, count: usize) -> (r: Option<u16>)
    ensures
        r == port_field(*v, name@, pos as int, count as int),
{
    match get_field(v, name, pos, count) {
        Some(JsonValue::Number(JsonNumber::PosInt(n))) => if *n <= 65535 { Some(*n as u16) } else { None },
        Some(JsonValue::Number(JsonNumber::NegInt(n))) => if 0 <= *n && *n <= 65535 { Some(*n as u16) } else { None },
        _ => None,
    }
}

/// Whether a JSON value can stand for a record of `count` fields.
pub fn has_record_shape(v: &JsonValue, count: usize) -> (r: bool)
    ensures
        r == record_shape(*v, count as int),
{
    match v {
        JsonValue::Object(_) => true,
        JsonValue::Array(items) => items.len() == count,
        _ => false,
    }
}

/// A (name, text) member.
pub fn text_member(name: &str, value: &String) -> (r: (String, JsonValue))
    ensures
        r.0@ == name@,
        r.1 == JsonValue::Str(*value),
{
    (name.to_owned(), JsonValue::Str(value.clone()))
}

} // verus!

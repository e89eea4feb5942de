//! A JSON document model: the values that the turn logic reads from model
//! replies, tool arguments and flow outputs.
use vstd::prelude::*;

use crate::text::{chars_of, same_text};

verus! {

/// A JSON number. `Unsigned` holds every non-negative integer, `Negative` a
/// negative integer and `Decimal` any other number, in its textual form.
#[derive(Clone, Debug)]
pub enum JsonNumber {
    Unsigned(u64),
    Negative(i64),
    Decimal(String),
}

/// One `"key": value` member of a JSON object.
#[derive(Debug)]
pub struct JsonMember {
    pub key: String,
    pub value: JsonValue,
}

/// A JSON value. Object members keep their order; keys are expected to be distinct.
#[derive(Debug)]
pub enum JsonValue {
    Null,
    Bool(bool),
    Number(JsonNumber),
    String(String),
    Array(Vec<JsonValue>),
    Object(Vec<JsonMember>),
}

/// The value of the first member named `key`.
pub open spec fn member_value(ms: Seq<JsonMember>, key: Seq<char>) -> Option<JsonValue>
    decreases ms.len(),
{
    if ms.len() == 0 {
        None
    } else if ms[0].key@ == key {
        Some(ms[0].value)
    } else {
        member_value(ms.drop_first(), key)
    }
}

/// `v.get(key)`: the member named `key` when `v` is an object.
pub open spec fn json_get(v: JsonValue, key: Seq<char>) -> Option<JsonValue> {
    match v {
        JsonValue::Object(ms) => member_value(ms@, key),
        _ => None,
    }
}

/// `v.as_str()`.
pub open spec fn json_str(v: JsonValue) -> Option<Seq<char>> {
    match v {
        JsonValue::String(s) => Some(s@),
        _ => None,
    }
}

/// `v.as_u64()`.
pub open spec fn json_u64(v: JsonValue) -> Option<u64> {
    match v {
        JsonValue::Number(JsonNumber::Unsigned(n)) => Some(n),
        _ => None,
    }
}

/// `v.as_array()`.
pub open spec fn json_array(v: JsonValue) -> Option<Seq<JsonValue>> {
    match v {
        JsonValue::Array(items) => Some(items@),
        _ => None,
    }
}

/// `v.get(key).and_then(as_str)`.
pub open spec fn str_field(v: JsonValue, key: Seq<char>) -> Option<Seq<char>> {
    match json_get(v, key) {
        Some(x) => json_str(x),
        None => None,
    }
}

/// `v.get(key).and_then(as_u64)`.
pub open spec fn u64_field(v: JsonValue, key: Seq<char>) -> Option<u64> {
    match json_get(v, key) {
        Some(x) => json_u64(x),
        None => None,
    }
}

/// `opt.and_then(as_u64)`.
pub open spec fn opt_u64(v: Option<JsonValue>) -> Option<u64> {
    match v {
        Some(x) => json_u64(x),
        None => None,
    }
}

/// `opt.and_then(|x| x.get(key))`.
pub open spec fn opt_get(v: Option<JsonValue>, key: Seq<char>) -> Option<JsonValue> {
    match v {
        Some(x) => json_get(x, key),
        None => None,
    }
}

pub open spec fn opt_or(a: Option<JsonValue>, b: Option<JsonValue>) -> Option<JsonValue> {
    if a is Some {
        a
    } else {
        b
    }
}

fn find_member<'a>(ms: &'a Vec<JsonMember>, key: &str) -> (r: Option<&'a JsonValue>)
    ensures
        match r {
            Some(x) => member_value(ms@, key@) == Some(*x),
            None => member_value(ms@, key@) is None,
        },
{
    let mut i: usize = 0;
    assert(ms@.subrange(0, ms@.len() as int) =~= ms@);
    while i < ms.len()
        invariant
            i <= ms.len(),
            member_value(ms@, key@) == member_value(ms@.subrange(i as int, ms@.len() as int), key@),
        decreases ms.len() - i,
    {
        let ghost rest = ms@.subrange(i as int, ms@.len() as int);
        assert(rest[0] == ms@[i as int]);
        if same_text(ms[i].key.as_str(), key) {
            return Some(&ms[i].value);
        }
        assert(rest.drop_first() =~= ms@.subrange(i + 1, ms@.len() as int));
        i = i + 1;
    }
    None
}

impl JsonValue {
    /// The member named `key` when this is an object.
    pub fn get<'a>(&'a self, key: &str) -> (r: Option<&'a JsonValue>)
        ensures
            match r {
                Some(x) => json_get(*self, key@) == Some(*x),
                None => json_get(*self, key@) is None,
            },
    {
        match self {
            JsonValue::Object(ms) => find_member(ms, key),
            _ => None,
        }
    }

    /// The text when this is a string.
    pub fn as_str(&self) -> (r: Option<&String>)
        ensures
            match r {
                Some(s) => json_str(*self) == Some(s@),
                None => json_str(*self) is None,
            },
    {
        match self {
            JsonValue::String(s) => Some(s),
            _ => None,
        }
    }

    /// The number when this is a non-negative integer.
    pub fn as_u64(&self) -> (r: Option<u64>)
        ensures
            r == json_u64(*self),
    {
        match self {
            JsonValue::Number(JsonNumber::Unsigned(n)) => Some(*n),
            _ => None,
        }
    }

    /// The items when this is an array.
    pub fn as_array(&self) -> (r: Option<&Vec<JsonValue>>)
        ensures
            match r {
                Some(items) => json_array(*self) == Some(items@),
                None => json_array(*self) is None,
            },
    {
        match self {
            JsonValue::Array(items) => Some(items),
            _ => None,
        }
    }

    pub fn is_null(&self) -> (b: bool)
        ensures
            b == (*self is Null),
    {
        match self {
            JsonValue::Null => true,
            _ => false,
        }
    }

    /// `get(key)` followed by `as_str`.
    pub fn str_field<'a>(&'a self, key: &str) -> (r: Option<&'a String>)
        ensures
            match r {
                Some(s) => str_field(*self, key@) == Some(s@),
                None => str_field(*self, key@) is None,
            },
    {
        match self.get(key) {
            Some(x) => x.as_str(),
            None => None,
        }
    }

    /// `get(key)` followed by `as_u64`.
    pub fn u64_field(&self, key: &str) -> (r: Option<u64>)
        ensures
            r == u64_field(*self, key@),
    {
        match self.get(key) {
            Some(x) => x.as_u64(),
            None => None,
        }
    }

    /// A string value holding the characters of `s`.
    pub fn text(s: &str) -> (r: JsonValue)
        ensures
            json_str(r) == Some(s@),
    {
        JsonValue::String(crate::text::string_of(&chars_of(s)))
    }
}

/// A member with the given key.
pub fn member(key: &str, value: JsonValue) -> (m: JsonMember)
    ensures
        m.key@ == key@,
        m.value == value,
{
    JsonMember { key: crate::text::string_of(&chars_of(key)), value }
}

} // verus!

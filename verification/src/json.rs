//! The library's model of a loosely structured JSON document.
//!
//! Only the shapes the decoders read are distinguished: numbers are
//! unsigned integers (a payload number of any other shape carries no
//! field the decoders accept, so it is modelled as out of range), and an
//! object is a key/value list looked up by first match.

use vstd::prelude::*;
use vstd::string::*;

verus! {

/// One JSON value.
#[derive(Debug, PartialEq)]
pub enum JsonValue {
    Null,
    Bool(bool),
    UInt(u64),
    Str(String),
    Arr(Vec<JsonValue>),
    Obj(Vec<(String, JsonValue)>),
}

/// First value bound to `key` in `fields`, scanning from index `i` on.
pub open spec fn field_lookup_from(
    fields: Seq<(String, JsonValue)>,
    key: Seq<char>,
    i: int,
) -> Option<JsonValue>
    decreases fields.len() - i,
{
    if i < 0 || i >= fields.len() {
        None
    } else if fields[i].0@ == key {
        Some(fields[i].1)
    } else {
        field_lookup_from(fields, key, i + 1)
    }
}

/// The value bound to `key`, if `v` is an object carrying that key.
pub open spec fn get_of(v: JsonValue, key: Seq<char>) -> Option<JsonValue> {
    match v {
        JsonValue::Obj(fields) => field_lookup_from(fields@, key, 0),
        _ => None,
    }
}

/// Whether `v` is an object carrying `key`.
pub open spec fn has_field(v: JsonValue, key: Seq<char>) -> bool {
    get_of(v, key) is Some
}

/// The character sequence held by `v`, if `v` is a string.
pub open spec fn str_of(v: JsonValue) -> Option<Seq<char>> {
    match v {
        JsonValue::Str(s) => Some(s@),
        _ => None,
    }
}

/// The number held by `v`, if `v` is a number.
pub open spec fn uint_of(v: JsonValue) -> Option<u64> {
    match v {
        JsonValue::UInt(n) => Some(n),
        _ => None,
    }
}

/// The string bound to `key` in the object `v`, when both shapes hold.
pub open spec fn str_at(v: JsonValue, key: Seq<char>) -> Option<Seq<char>> {
    match get_of(v, key) {
        Some(f) => str_of(f),
        None => None,
    }
}

/// The number bound to `key` in the object `v`, when both shapes hold.
pub open spec fn uint_at(v: JsonValue, key: Seq<char>) -> Option<u64> {
    match get_of(v, key) {
        Some(f) => uint_of(f),
        None => None,
    }
}

/// Character-for-character string comparison.
pub fn str_eq(a: &str, b: &str) -> (r: bool)
    ensures
        r == (a@ == b@),
{
    let n = a.unicode_len();
    if n != b.unicode_len() {
        return false;
    }
    for i in 0..n
        invariant
            n == a@.len(),
            n == b@.len(),
            forall|j: int| 0 <= j < i ==> a@[j] == b@[j],
    {
        if a.get_char(i) != b.get_char(i) {
            return false;
        }
    }
    proof {
        assert(a@ =~= b@);
    }
    true
}

impl JsonValue {
    /// The value bound to `key`, if this value is an object with that key.
    pub fn get<'a>(&'a self, key: &str) -> (r: Option<&'a JsonValue>)
        ensures
            match r {
                Some(f) => get_of(*self, key@) == Some(*f),
                None => get_of(*self, key@) is None,
            },
    {
        match self {
            JsonValue::Obj(fields) => {
                let n = fields.len();
                for i in 0..n
                    invariant
                        n == fields.len(),
                        get_of(*self, key@) == field_lookup_from(fields@, key@, i as int),
                {
                    if str_eq(fields[i].0.as_str(), key) {
                        return Some(&fields[i].1);
                    }
                }
                None
            },
            _ => None,
        }
    }

    /// The held string, if this value is a string.
    pub fn as_str<'a>(&'a self) -> (r: Option<&'a str>)
        ensures
            match r {
                Some(s) => str_of(*self) == Some(s@),
                None => str_of(*self) is None,
            },
    {
        match self {
            JsonValue::Str(s) => Some(s.as_str()),
            _ => None,
        }
    }

    /// The held number, if this value is a number.
    pub fn as_uint(&self) -> (r: Option<u64>)
        ensures
            r == uint_of(*self),
    {
        match self {
            JsonValue::UInt(n) => Some(*n),
            _ => None,
        }
    }

    /// Whether this value is an object carrying `key`.
    pub fn has(&self, key: &str) -> (r: bool)
        ensures
            r == has_field(*self, key@),
    {
        match self.get(key) {
            Some(_) => true,
            None => false,
        }
    }

    /// The string bound to `key`, when this value is an object and the
    /// binding is a string.
    pub fn get_str<'a>(&'a self, key: &str) -> (r: Option<&'a str>)
        ensures
            match r {
                Some(s) => str_at(*self, key@) == Some(s@),
                None => str_at(*self, key@) is None,
            },
    {
        match self.get(key) {
            Some(f) => f.as_str(),
            None => None,
        }
    }

    /// The number bound to `key`, when this value is an object and the
    /// binding is a number.
    pub fn get_uint(&self, key: &str) -> (r: Option<u64>)
        ensures
            r == uint_at(*self, key@),
    {
        match self.get(key) {
            Some(f) => f.as_uint(),
            None => None,
        }
    }
}

} // verus!

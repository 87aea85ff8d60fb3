//! A loosely-typed JSON-like value, the shape the remote service's payload
//! takes inside the library. Callers that talk to the wire convert their
//! decoded document into this type; the parsing and defaulting rules are
//! then total functions over it.

use vstd::prelude::*;
use crate::strings::str_eq;

verus! {

/// A JSON document or fragment. Object fields keep their input order;
/// lookups return the first field with a matching name. A number that does
/// not fit a 64-bit signed integer has no representation here and is carried
/// as `Null`, which every field read defaults in the same way.
pub enum JsonValue {
    Null,
    Bool(bool),
    Int(i64),
    Str(String),
    Arr(Vec<JsonValue>),
    Obj(Vec<(String, JsonValue)>),
}

/// The first field of `fields` named `key`, if any.
pub open spec fn lookup_field(fields: Seq<(String, JsonValue)>, key: Seq<char>) -> Option<
    JsonValue,
>
    decreases fields.len(),
{
    if fields.len() == 0 {
        None
    } else if fields[0].0@ == key {
        Some(fields[0].1)
    } else {
        lookup_field(fields.drop_first(), key)
    }
}

/// The member of object `v` named `key`: `None` when `v` is not an object or
/// has no such field.
pub open spec fn json_get(v: JsonValue, key: Seq<char>) -> Option<JsonValue> {
    match v {
        JsonValue::Obj(fields) => lookup_field(fields@, key),
        _ => None,
    }
}

/// The integer member named `key`, defaulting to 0 when absent or of
/// another type.
pub open spec fn json_i64_or_zero(v: JsonValue, key: Seq<char>) -> i64 {
    match json_get(v, key) {
        Some(JsonValue::Int(n)) => n,
        _ => 0,
    }
}

/// The text member named `key`, defaulting to the empty text when absent or
/// of another type.
pub open spec fn json_str_or_empty(v: JsonValue, key: Seq<char>) -> Seq<char> {
    match json_get(v, key) {
        Some(JsonValue::Str(s)) => s@,
        _ => Seq::empty(),
    }
}

/// The index of the first field of `fields` named `key`, if any.
pub(crate) fn find_field(fields: &Vec<(String, JsonValue)>, key: &str) -> (r: Option<usize>)
    ensures
        match r {
            Some(i) => i < fields@.len() && lookup_field(fields@, key@) == Some(
                fields@[i as int].1,
            ),
            None => lookup_field(fields@, key@) is None,
        },
{
    let mut i: usize = 0;
    proof {
        assert(fields@.skip(0) =~= fields@);
    }
    while i < fields.len()
        invariant
            i <= fields@.len(),
            lookup_field(fields@, key@) == lookup_field(fields@.skip(i as int), key@),
        decreases fields@.len() - i,
    {
        if str_eq(fields[i].0.as_str(), key) {
            proof {
                assert(fields@.skip(i as int)[0] == fields@[i as int]);
            }
            return Some(i);
        }
        i += 1;
        proof {
            assert(fields@.skip(i - 1).drop_first() =~= fields@.skip(i as int));
            assert(fields@.skip(i - 1)[0] == fields@[i - 1]);
        }
    }
    proof {
        assert(fields@.skip(i as int).len() == 0);
    }
    None
}

impl JsonValue {
    /// The member of this object named `key`, if this is an object that has
    /// one; the first field wins when names repeat.
    pub fn get<'a>(&'a self, key: &str) -> (r: Option<&'a JsonValue>)
        ensures
            match r {
                Some(v) => json_get(*self, key@) == Some(*v),
                None => json_get(*self, key@) is None,
            },
    {
        match self {
            JsonValue::Obj(fields) => match find_field(fields, key) {
                Some(i) => Some(&fields[i].1),
                None => None,
            },
            _ => None,
        }
    }

    /// The integer member named `key`, defaulting to 0 when absent or of
    /// another type.
    pub fn i64_at(&self, key: &str) -> (r: i64)
        ensures
            r == json_i64_or_zero(*self, key@),
    {
        match self.get(key) {
            Some(v) => match v {
                JsonValue::Int(n) => *n,
                _ => 0,
            },
            None => 0,
        }
    }

    /// The text member named `key`, defaulting to the empty text when absent
    /// or of another type.
    pub fn str_at(&self, key: &str) -> (r: String)
        ensures
            r@ == json_str_or_empty(*self, key@),
    {
        match self.get(key) {
            Some(v) => match v {
                JsonValue::Str(s) => s.clone(),
                _ => String::new(),
            },
            None => String::new(),
        }
    }
}

} // verus!

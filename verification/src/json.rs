//! A JSON document as the library reads it. The application parses the
//! text and hands the library this value; the library reads Redfish
//! resources from it and builds request bodies in it.

use vstd::prelude::*;
use crate::text::str_eq;

verus! {

/// A JSON number, held as the two readings the library makes of it.
#[derive(Debug, Clone, Copy, PartialEq, Eq)]
pub struct JsonNumber {
    /// The number as an unsigned 64-bit integer, when it is one.
    pub as_u64: Option<u64>,
    /// The number as a double converted to an unsigned 64-bit integer:
    /// rounded toward zero, negative values and NaN to 0, large values to the maximum.
    pub as_f64_to_u64: u64,
}

/// A JSON value. An object keeps its members in order, each key once.
#[derive(Debug)]
pub enum JsonValue {
    Null,
    Bool(bool),
    Number(JsonNumber),
    Str(String),
    Array(Vec<JsonValue>),
    Object(Vec<(String, JsonValue)>),
}

/// The value of the first member named `key`.
pub open spec fn object_lookup(members: Seq<(String, JsonValue)>, key: Seq<char>) -> Option<JsonValue>
    decreases members.len(),
{
    if members.len() == 0 {
        None
    } else if members[0].0@ == key {
        Some(members[0].1)
    } else {
        object_lookup(members.drop_first(), key)
    }
}

impl JsonValue {
    /// The member `key` of an object; `None` for a missing member or a value that is no object.
    pub open spec fn member(self, key: Seq<char>) -> Option<JsonValue> {
        match self {
            JsonValue::Object(members) => object_lookup(members@, key),
            _ => None,
        }
    }

    /// The member `key` of an object.
    pub fn get(&self, key: &str) -> (r: Option<&JsonValue>)
        ensures
            match self.member(key@) {
                Some(v) => r matches Some(x) && *x == v,
                None => r is None,
            },
    {
        match self {
            JsonValue::Object(members) => {
                let mut i: usize = 0;
                assert(members@.subrange(0, members@.len() as int) =~= members@);
                while i < members.len()
                    invariant
                        i <= members@.len(),
                        self.member(key@) == object_lookup(members@, key@),
                        object_lookup(members@, key@) == object_lookup(members@.subrange(i as int, members@.len() as int), key@),
                    decreases members@.len() - i,
                {
                    let ghost rest = members@.subrange(i as int, members@.len() as int);
                    assert(rest.drop_first() =~= members@.subrange(i + 1, members@.len() as int));
                    assert(rest[0] == members@[i as int]);
                    let entry = &members[i];
                    if str_eq(entry.0.as_str(), key) {
                        assert(rest[0].0@ == key@);
                        assert(object_lookup(rest, key@) == Some(rest[0].1));
                        return Some(&entry.1);
                    }
                    i = i + 1;
                }
                None
            },
            _ => None,
        }
    }

    /// The text of a string value.
    pub open spec fn text(self) -> Option<Seq<char>> {
        match self {
            JsonValue::Str(s) => Some(s@),
            _ => None,
        }
    }

    /// The text of a string value.
    pub fn as_str(&self) -> (r: Option<&str>)
        ensures
            match self.text() {
                Some(t) => r matches Some(x) && x@ == t,
                None => r is None,
            },
    {
        match self {
            JsonValue::Str(s) => Some(s.as_str()),
            _ => None,
        }
    }

    /// A number that is an unsigned 64-bit integer.
    pub open spec fn unsigned(self) -> Option<u64> {
        match self {
            JsonValue::Number(n) => n.as_u64,
            _ => None,
        }
    }

    /// A number that is an unsigned 64-bit integer.
    pub fn as_u64(&self) -> (r: Option<u64>)
        ensures
            r == self.unsigned(),
    {
        match self {
            JsonValue::Number(n) => n.as_u64,
            _ => None,
        }
    }

    /// A number read as a double and converted to an unsigned 64-bit integer.
    pub open spec fn float_to_u64(self) -> Option<u64> {
        match self {
            JsonValue::Number(n) => Some(n.as_f64_to_u64),
            _ => None,
        }
    }

    /// A number read as a double and converted to an unsigned 64-bit integer.
    pub fn as_f64_to_u64(&self) -> (r: Option<u64>)
        ensures
            r == self.float_to_u64(),
    {
        match self {
            JsonValue::Number(n) => Some(n.as_f64_to_u64),
            _ => None,
        }
    }

    /// A boolean value.
    pub open spec fn boolean(self) -> Option<bool> {
        match self {
            JsonValue::Bool(b) => Some(b),
            _ => None,
        }
    }

    /// A boolean value.
    pub fn as_bool(&self) -> (r: Option<bool>)
        ensures
            r == self.boolean(),
    {
        match self {
            JsonValue::Bool(b) => Some(*b),
            _ => None,
        }
    }

    /// The elements of an array.
    pub open spec fn elements(self) -> Option<Seq<JsonValue>> {
        match self {
            JsonValue::Array(a) => Some(a@),
            _ => None,
        }
    }

    /// The elements of an array.
    pub fn as_array(&self) -> (r: Option<&Vec<JsonValue>>)
        ensures
            match self.elements() {
                Some(e) => r matches Some(x) && x@ == e,
                None => r is None,
            },
    {
        match self {
            JsonValue::Array(a) => Some(a),
            _ => None,
        }
    }
}

/// The text of member `key` of `v`, when that member is a string.
pub open spec fn member_text(v: JsonValue, key: Seq<char>) -> Option<Seq<char>> {
    match v.member(key) {
        Some(m) => m.text(),
        None => None,
    }
}

/// The view of an optional string.
pub open spec fn opt_text(o: Option<String>) -> Option<Seq<char>> {
    match o {
        Some(s) => Some(s@),
        None => None,
    }
}

/// `o`, or `d` when it is absent.
pub open spec fn text_or(o: Option<Seq<char>>, d: Seq<char>) -> Seq<char> {
    match o {
        Some(t) => t,
        None => d,
    }
}

/// The text of member `key` of `v` as an owned string, when that member is a string.
pub fn member_string(v: &JsonValue, key: &str) -> (r: Option<String>)
    ensures
        opt_text(r) == member_text(*v, key@),
{
    match v.get(key) {
        Some(m) => match m.as_str() {
            Some(s) => Some(s.to_owned()),
            None => None,
        },
        None => None,
    }
}

/// The text of member `key` of `v`, or `default` when it is missing or no string.
pub fn member_string_or(v: &JsonValue, key: &str, default: &str) -> (r: String)
    ensures
        r@ == text_or(member_text(*v, key@), default@),
{
    match member_string(v, key) {
        Some(s) => s,
        None => default.to_owned(),
    }
}


/// Looking up a member finds the value of the first member with that key,
/// and finds nothing exactly when no member has that key.
pub proof fn law_object_lookup(members: Seq<(String, JsonValue)>, key: Seq<char>)
    ensures
        object_lookup(members, key) is None <==> (forall|i: int| 0 <= i < members.len() ==> #[trigger] members[i].0@ != key),
        object_lookup(members, key) matches Some(v) ==> exists|i: int| {
            &&& 0 <= i < members.len()
            &&& #[trigger] members[i].0@ == key
            &&& members[i].1 == v
            &&& forall|j: int| 0 <= j < i ==> #[trigger] members[j].0@ != key
        },
    decreases members.len(),
{
    if members.len() > 0 {
        let rest = members.drop_first();
        law_object_lookup(rest, key);
        if members[0].0@ == key {
            assert(members[0].0@ == key);
        } else {
            if let Some(v) = object_lookup(rest, key) {
                let i = choose|i: int| {
                    &&& 0 <= i < rest.len()
                    &&& #[trigger] rest[i].0@ == key
                    &&& rest[i].1 == v
                    &&& forall|j: int| 0 <= j < i ==> #[trigger] rest[j].0@ != key
                };
                assert(members[i + 1] == rest[i]);
                assert forall|j: int| 0 <= j < i + 1 implies #[trigger] members[j].0@ != key by {
                    if j > 0 {
                        assert(members[j] == rest[j - 1]);
                    }
                }
            } else {
                assert forall|i: int| 0 <= i < members.len() implies #[trigger] members[i].0@ != key by {
                    if i > 0 {
                        assert(members[i] == rest[i - 1]);
                    }
                }
            }
        }
    }
}

} // verus!

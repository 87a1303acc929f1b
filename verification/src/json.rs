use vstd::prelude::*;

verus! {

/// A JSON number, as the JSON decoder classifies it.
#[derive(Debug, Clone, Copy)]
pub enum JsonNumber {
    /// A non-negative integer that fits in `u64`.
    PosInt(u64),
    /// A negative integer that fits in `i64`.
    NegInt(i64),
    /// Any other number (fractional or out of the integer ranges).
    /// Its value is never read by this library.
    Float,
}

/// A JSON document: the data that the Roblox endpoints answer with.
#[derive(Debug)]
pub enum JsonValue {
    Null,
    Bool(bool),
    Number(JsonNumber),
    String(String),
    Array(Vec<JsonValue>),
    /// The members of an object, in document order.
    Object(Vec<(String, JsonValue)>),
}

/// The value of the first member named `key` among `members`.
pub open spec fn lookup(members: Seq<(String, JsonValue)>, key: Seq<char>) -> Option<JsonValue>
    decreases members.len(),
{
    if members.len() == 0 {
        None
    } else if members[0].0@ == key {
        Some(members[0].1)
    } else {
        lookup(members.drop_first(), key)
    }
}

impl JsonValue {
    /// The member `key` of an object; nothing for any other kind of value.
    pub open spec fn spec_get(self, key: Seq<char>) -> Option<JsonValue> {
        match self {
            JsonValue::Object(members) => lookup(members@, key),
            _ => None,
        }
    }

    /// A number that is a non-negative integer fitting in `u64`.
    pub open spec fn spec_as_u64(self) -> Option<u64> {
        match self {
            JsonValue::Number(JsonNumber::PosInt(n)) => Some(n),
            _ => None,
        }
    }

    /// An integer that fits in `i64`.
    pub open spec fn spec_as_i64(self) -> Option<i64> {
        match self {
            JsonValue::Number(JsonNumber::PosInt(n)) => if n <= i64::MAX {
                Some(n as i64)
            } else {
                None
            },
            JsonValue::Number(JsonNumber::NegInt(n)) => Some(n),
            _ => None,
        }
    }

    pub open spec fn spec_as_bool(self) -> Option<bool> {
        match self {
            JsonValue::Bool(b) => Some(b),
            _ => None,
        }
    }

    pub open spec fn spec_as_str(self) -> Option<Seq<char>> {
        match self {
            JsonValue::String(s) => Some(s@),
            _ => None,
        }
    }

    pub open spec fn spec_as_array(self) -> Option<Seq<JsonValue>> {
        match self {
            JsonValue::Array(items) => Some(items@),
            _ => None,
        }
    }

    /// Looks up the member `key` of an object.
    pub fn get(&self, key: &str) -> (r: Option<&JsonValue>)
        ensures
            match r {
                Some(v) => self.spec_get(key@) == Some(*v),
                None => self.spec_get(key@) is None,
            },
    {
        match self {
            JsonValue::Object(members) => {
                let wanted = String::from_str(key);
                let mut i: usize = 0;
                assert(members@.skip(0) =~= members@);
                while i < members.len()
                    invariant
                        i <= members@.len(),
                        wanted@ == key@,
                        self.spec_get(key@) == lookup(members@, key@),
                        lookup(members@, key@) == lookup(members@.skip(i as int), key@),
                    decreases members@.len() - i,
                {
                    assert(members@.skip(i as int).drop_first() =~= members@.skip(i + 1));
                    if members[i].0 == wanted {
                        return Some(&members[i].1);
                    }
                    i += 1;
                }
                None
            },
            _ => None,
        }
    }

    pub fn as_u64(&self) -> (r: Option<u64>)
        ensures
            r == self.spec_as_u64(),
    {
        match self {
            JsonValue::Number(JsonNumber::PosInt(n)) => Some(*n),
            _ => None,
        }
    }

    pub fn as_i64(&self) -> (r: Option<i64>)
        ensures
            r == self.spec_as_i64(),
    {
        match self {
            JsonValue::Number(JsonNumber::PosInt(n)) => if *n <= i64::MAX as u64 {
                Some(*n as i64)
            } else {
                None
            },
            JsonValue::Number(JsonNumber::NegInt(n)) => Some(*n),
            _ => None,
        }
    }

    pub fn as_bool(&self) -> (r: Option<bool>)
        ensures
            r == self.spec_as_bool(),
    {
        match self {
            JsonValue::Bool(b) => Some(*b),
            _ => None,
        }
    }

    pub fn as_str(&self) -> (r: Option<&str>)
        ensures
            match r {
                Some(s) => self.spec_as_str() == Some(s@),
                None => self.spec_as_str() is None,
            },
    {
        match self {
            JsonValue::String(s) => Some(s.as_str()),
            _ => None,
        }
    }

    pub fn as_array(&self) -> (r: Option<&Vec<JsonValue>>)
        ensures
            match r {
                Some(items) => self.spec_as_array() == Some(items@),
                None => self.spec_as_array() is None,
            },
    {
        match self {
            JsonValue::Array(items) => Some(items),
            _ => None,
        }
    }
}

/// A possibly absent value read as a `u64`.
pub open spec fn as_u64_of(o: Option<JsonValue>) -> Option<u64> {
    match o {
        Some(v) => v.spec_as_u64(),
        None => None,
    }
}

/// A possibly absent value read as an `i64`.
pub open spec fn as_i64_of(o: Option<JsonValue>) -> Option<i64> {
    match o {
        Some(v) => v.spec_as_i64(),
        None => None,
    }
}

/// A possibly absent value read as a boolean.
pub open spec fn as_bool_of(o: Option<JsonValue>) -> Option<bool> {
    match o {
        Some(v) => v.spec_as_bool(),
        None => None,
    }
}

/// A possibly absent value read as a string.
pub open spec fn as_str_of(o: Option<JsonValue>) -> Option<Seq<char>> {
    match o {
        Some(v) => v.spec_as_str(),
        None => None,
    }
}

/// A possibly absent value read as an array.
pub open spec fn as_array_of(o: Option<JsonValue>) -> Option<Seq<JsonValue>> {
    match o {
        Some(v) => v.spec_as_array(),
        None => None,
    }
}

/// `v[key].as_u64()`: nothing when the member is absent or is not such a number.
pub open spec fn field_u64(v: JsonValue, key: Seq<char>) -> Option<u64> {
    as_u64_of(v.spec_get(key))
}

/// `v[key].as_i64()`.
pub open spec fn field_i64(v: JsonValue, key: Seq<char>) -> Option<i64> {
    as_i64_of(v.spec_get(key))
}

/// `v[key].as_bool()`.
pub open spec fn field_bool(v: JsonValue, key: Seq<char>) -> Option<bool> {
    as_bool_of(v.spec_get(key))
}

/// `v[key].as_str()`.
pub open spec fn field_str(v: JsonValue, key: Seq<char>) -> Option<Seq<char>> {
    as_str_of(v.spec_get(key))
}

/// `v[key].as_array()`.
pub open spec fn field_array(v: JsonValue, key: Seq<char>) -> Option<Seq<JsonValue>> {
    as_array_of(v.spec_get(key))
}

/// `v.get(outer)?.get(inner)`.
pub open spec fn nested(v: JsonValue, outer: Seq<char>, inner: Seq<char>) -> Option<JsonValue> {
    match v.spec_get(outer) {
        Some(x) => x.spec_get(inner),
        None => None,
    }
}

/// The elements of the array `v[key]`, none when it is not an array:
/// `v[key].as_array().unwrap_or(&vec![])`.
pub open spec fn listed(v: JsonValue, key: Seq<char>) -> Seq<JsonValue> {
    match field_array(v, key) {
        Some(items) => items,
        None => Seq::empty(),
    }
}

/// Reads `v[key]` as a `u64`.
pub fn u64_field(v: &JsonValue, key: &str) -> (r: Option<u64>)
    ensures
        r == field_u64(*v, key@),
{
    match v.get(key) {
        Some(x) => x.as_u64(),
        None => None,
    }
}

/// Reads `v[key]` as an `i64`.
pub fn i64_field(v: &JsonValue, key: &str) -> (r: Option<i64>)
    ensures
        r == field_i64(*v, key@),
{
    match v.get(key) {
        Some(x) => x.as_i64(),
        None => None,
    }
}

/// Reads `v[key]` as a boolean.
pub fn bool_field(v: &JsonValue, key: &str) -> (r: Option<bool>)
    ensures
        r == field_bool(*v, key@),
{
    match v.get(key) {
        Some(x) => x.as_bool(),
        None => None,
    }
}

/// Reads `v[key]` as an owned string.
pub fn str_field(v: &JsonValue, key: &str) -> (r: Option<String>)
    ensures
        match r {
            Some(s) => field_str(*v, key@) == Some(s@),
            None => field_str(*v, key@) is None,
        },
{
    match v.get(key) {
        Some(x) => match x.as_str() {
            Some(s) => Some(String::from_str(s)),
            None => None,
        },
        None => None,
    }
}

/// The array `v[key]`, if it is one.
pub fn array_field<'a>(v: &'a JsonValue, key: &str) -> (r: Option<&'a Vec<JsonValue>>)
    ensures
        match r {
            Some(items) => field_array(*v, key@) == Some(items@),
            None => field_array(*v, key@) is None,
        },
{
    match v.get(key) {
        Some(x) => x.as_array(),
        None => None,
    }
}

/// Reads `v[outer][inner]` as a `u64`.
pub fn nested_u64(v: &JsonValue, outer: &str, inner: &str) -> (r: Option<u64>)
    ensures
        r == as_u64_of(nested(*v, outer@, inner@)),
{
    match v.get(outer) {
        Some(x) => u64_field(x, inner),
        None => None,
    }
}

/// Reads `v[outer][inner]` as a boolean.
pub fn nested_bool(v: &JsonValue, outer: &str, inner: &str) -> (r: Option<bool>)
    ensures
        r == as_bool_of(nested(*v, outer@, inner@)),
{
    match v.get(outer) {
        Some(x) => bool_field(x, inner),
        None => None,
    }
}

/// Reads `v[outer][inner]` as an owned string.
pub fn nested_str(v: &JsonValue, outer: &str, inner: &str) -> (r: Option<String>)
    ensures
        match r {
            Some(s) => as_str_of(nested(*v, outer@, inner@)) == Some(s@),
            None => as_str_of(nested(*v, outer@, inner@)) is None,
        },
{
    match v.get(outer) {
        Some(x) => str_field(x, inner),
        None => None,
    }
}

} // verus!

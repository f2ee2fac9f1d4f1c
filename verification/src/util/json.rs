//! The JSON values that preference maps hold.

use vstd::prelude::*;

verus! {

/// A JSON number as the JSON reader keeps it: a non-negative integer, a negative integer,
/// or a floating-point number held by the bits of its IEEE-754 `f64` encoding.
#[derive(Debug, Clone, Copy, PartialEq, Eq, Structural)]
pub enum JsonNumber {
    PosInt(u64),
    NegInt(i64),
    Float(u64),
}

/// A JSON value.
#[derive(Debug)]
pub enum JsonValue {
    Null,
    Bool(bool),
    Number(JsonNumber),
    String(String),
    Array(Vec<JsonValue>),
    Object(Vec<(String, JsonValue)>),
}

/// The value as an unsigned integer, when it is a non-negative integer.
pub open spec fn json_as_u64(v: JsonValue) -> Option<u64> {
    match v {
        JsonValue::Number(JsonNumber::PosInt(n)) => Some(n),
        _ => None,
    }
}

/// Whether the value is a number that, read as an `f64`, lies in `[lo, hi]`.
///
/// `lo` and `hi` are positive integers below 2^53 and `lo_bits`, `hi_bits` are the bits of
/// their `f64` encodings. A non-negative integer is exactly representable in that range, so
/// it compares as an integer; a negative integer is below `lo`. The encodings of the
/// non-negative `f64` values are ordered as the values are, while negative values, `-0.0`
/// and NaNs have encodings above that of any finite positive bound, so a float compares by
/// its bits.
pub open spec fn json_f64_within(v: JsonValue, lo: u64, hi: u64, lo_bits: u64, hi_bits: u64) -> bool {
    match v {
        JsonValue::Number(JsonNumber::PosInt(n)) => lo <= n <= hi,
        JsonValue::Number(JsonNumber::NegInt(_)) => false,
        JsonValue::Number(JsonNumber::Float(b)) => lo_bits <= b <= hi_bits,
        _ => false,
    }
}

/// Whether the value is a number equal, as an `f64`, to the positive integer `target`
/// (below 2^53) whose `f64` encoding is `target_bits`.
pub open spec fn json_f64_equals(v: JsonValue, target: u64, target_bits: u64) -> bool {
    match v {
        JsonValue::Number(JsonNumber::PosInt(n)) => n == target,
        JsonValue::Number(JsonNumber::NegInt(_)) => false,
        JsonValue::Number(JsonNumber::Float(b)) => b == target_bits,
        _ => false,
    }
}

impl JsonValue {
    pub fn is_null(&self) -> (r: bool)
        ensures
            r == (*self is Null),
    {
        match self {
            JsonValue::Null => true,
            _ => false,
        }
    }

    pub fn is_number(&self) -> (r: bool)
        ensures
            r == (*self is Number),
    {
        match self {
            JsonValue::Number(_) => true,
            _ => false,
        }
    }

    /// The value as an unsigned integer, when it is a non-negative integer.
    pub fn as_u64(&self) -> (r: Option<u64>)
        ensures
            r == json_as_u64(*self),
    {
        match self {
            JsonValue::Number(JsonNumber::PosInt(n)) => Some(*n),
            _ => None,
        }
    }

    /// See [`json_f64_within`].
    pub fn f64_within(&self, lo: u64, hi: u64, lo_bits: u64, hi_bits: u64) -> (r: bool)
        ensures
            r == json_f64_within(*self, lo, hi, lo_bits, hi_bits),
    {
        match self {
            JsonValue::Number(JsonNumber::PosInt(n)) => lo <= *n && *n <= hi,
            JsonValue::Number(JsonNumber::NegInt(_)) => false,
            JsonValue::Number(JsonNumber::Float(b)) => lo_bits <= *b && *b <= hi_bits,
            _ => false,
        }
    }

    /// See [`json_f64_equals`].
    pub fn f64_equals(&self, target: u64, target_bits: u64) -> (r: bool)
        ensures
            r == json_f64_equals(*self, target, target_bits),
    {
        match self {
            JsonValue::Number(JsonNumber::PosInt(n)) => *n == target,
            JsonValue::Number(JsonNumber::NegInt(_)) => false,
            JsonValue::Number(JsonNumber::Float(b)) => *b == target_bits,
            _ => false,
        }
    }
}

impl Clone for JsonValue {
    /// A copy of the value; scalars are copied exactly.
    fn clone(&self) -> (r: Self)
        ensures
            (*self is Null || *self is Bool || *self is Number) ==> r == *self,
            *self is String ==> (r is String && r->String_0@ == self->String_0@),
            json_as_u64(r) == json_as_u64(*self),
    {
        json_clone(self)
    }
}

/// A copy of a JSON value.
fn json_clone(v: &JsonValue) -> (r: JsonValue)
    ensures
        (*v is Null || *v is Bool || *v is Number) ==> r == *v,
        *v is String ==> (r is String && r->String_0@ == v->String_0@),
        json_as_u64(r) == json_as_u64(*v),
    decreases v, 1nat,
{
    match v {
        JsonValue::Null => JsonValue::Null,
        JsonValue::Bool(b) => JsonValue::Bool(*b),
        JsonValue::Number(n) => JsonValue::Number(*n),
        JsonValue::String(s) => JsonValue::String(s.clone()),
        JsonValue::Array(items) => JsonValue::Array(json_items_clone(items)),
        JsonValue::Object(entries) => JsonValue::Object(json_entries_clone(entries)),
    }
}

/// Copies of JSON values.
fn json_items_clone(items: &Vec<JsonValue>) -> (r: Vec<JsonValue>)
    ensures
        r@.len() == items@.len(),
    decreases items, 0nat,
{
    let mut r: Vec<JsonValue> = Vec::new();
    let mut i: usize = 0;
    while i < items.len()
        invariant
            i <= items@.len(),
            r@.len() == i,
        decreases items@.len() - i,
    {
        r.push(json_clone(&items[i]));
        i += 1;
    }
    r
}

/// Copies of the entries of a JSON object, with the same keys.
fn json_entries_clone(entries: &Vec<(String, JsonValue)>) -> (r: Vec<(String, JsonValue)>)
    ensures
        r@.len() == entries@.len(),
        forall|j: int| 0 <= j < entries@.len() ==> (#[trigger] r@[j]).0@ == entries@[j].0@,
    decreases entries, 0nat,
{
    let mut r: Vec<(String, JsonValue)> = Vec::new();
    let mut i: usize = 0;
    while i < entries.len()
        invariant
            i <= entries@.len(),
            r@.len() == i,
            forall|j: int| 0 <= j < i ==> (#[trigger] r@[j]).0@ == entries@[j].0@,
        decreases entries@.len() - i,
    {
        r.push((entries[i].0.clone(), json_clone(&entries[i].1)));
        i += 1;
    }
    r
}

} // verus!

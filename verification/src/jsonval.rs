//! Trusted surface over `serde_json`. A parsed document is carried as an
//! opaque `serde_json::Value`; what the verified readers learn of one is
//! axiomatised by the uninterpreted content functions below, which the
//! wrappers' contracts apply. Parsing and every accessor are deterministic
//! functions of their arguments, so naming their results is sound.

use vstd::prelude::*;

verus! {

#[verifier::external_type_specification]
#[verifier::external_body]
pub struct ExJsonValue(serde_json::Value);

/// The document a text parses to, or nothing when it is not valid JSON.
pub uninterp spec fn json_of(s: Seq<char>) -> Option<serde_json::Value>;

/// The field of a JSON object under a key; nothing when the value is not
/// an object or has no such field.
pub uninterp spec fn json_field_of(v: serde_json::Value, key: Seq<char>) -> Option<
    serde_json::Value,
>;

/// The elements of a JSON array; nothing when the value is not an array.
pub uninterp spec fn json_items_of(v: serde_json::Value) -> Option<Seq<serde_json::Value>>;

/// The characters of a JSON string; nothing when the value is not a string.
pub uninterp spec fn json_str_of(v: serde_json::Value) -> Option<Seq<char>>;

/// A JSON number as a `u64`; nothing when the value is not a number
/// representable as one.
pub uninterp spec fn json_u64_of(v: serde_json::Value) -> Option<u64>;

/// Relies on serde_json::from_str: parses a text as one JSON document.
#[verifier::external_body]
pub fn json_parse(s: &str) -> (r: Option<serde_json::Value>)
    ensures
        r == json_of(s@),
{
    serde_json::from_str::<serde_json::Value>(s).ok()
}

/// Relies on serde_json::Value::get: looks a key up in a JSON object,
/// `None` on a missing key or a non-object.
#[verifier::external_body]
pub fn json_get<'a>(v: &'a serde_json::Value, key: &str) -> (r: Option<&'a serde_json::Value>)
    ensures
        (r is Some) == (json_field_of(*v, key@) is Some),
        r matches Some(f) ==> json_field_of(*v, key@) == Some(*f),
{
    v.get(key)
}

/// Relies on serde_json::Value::as_array: the elements of an array,
/// `None` on any other kind of value.
#[verifier::external_body]
pub fn json_as_array<'a>(v: &'a serde_json::Value) -> (r: Option<&'a Vec<serde_json::Value>>)
    ensures
        (r is Some) == (json_items_of(*v) is Some),
        r matches Some(a) ==> json_items_of(*v) == Some(a@),
{
    v.as_array()
}

/// Relies on serde_json::Value::as_str: the characters of a string value,
/// `None` on any other kind of value.
#[verifier::external_body]
pub fn json_as_str<'a>(v: &'a serde_json::Value) -> (r: Option<&'a str>)
    ensures
        (r is Some) == (json_str_of(*v) is Some),
        r matches Some(s) ==> json_str_of(*v) == Some(s@),
{
    v.as_str()
}

/// Relies on serde_json::Value::as_u64: a number as a `u64`, `None` on a
/// non-number or one out of range.
#[verifier::external_body]
pub fn json_as_u64(v: &serde_json::Value) -> (r: Option<u64>)
    ensures
        r == json_u64_of(*v),
{
    v.as_u64()
}

/// The string field of a JSON object under a key: the field's characters
/// when the field exists and is a string, nothing otherwise.
pub open spec fn json_str_field(v: serde_json::Value, key: Seq<char>) -> Option<Seq<char>> {
    match json_field_of(v, key) {
        Some(f) => json_str_of(f),
        None => None,
    }
}

/// Look a key up and read it as a string, `None` when the field is
/// missing or not a string.
pub fn json_get_str<'a>(v: &'a serde_json::Value, key: &str) -> (r: Option<&'a str>)
    ensures
        (r is Some) == (json_str_field(*v, key@) is Some),
        r matches Some(s) ==> json_str_field(*v, key@) == Some(s@),
{
    match json_get(v, key) {
        Some(f) => json_as_str(f),
        None => None,
    }
}

} // verus!

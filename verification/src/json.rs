//! JSON documents, decoded and read through `serde_json`.
//!
//! A decoded document is a `serde_json::Value`. The contracts speak of it
//! through [`Json`], the tree of plain values that it stands for.

use vstd::prelude::*;

verus! {

/// A decoded JSON document of `serde_json`.
#[verifier::external_type_specification]
#[verifier::external_body]
pub struct ExValue(serde_json::Value);

/// The reason for which `serde_json` rejects a text.
#[verifier::external_type_specification]
#[verifier::external_body]
pub struct ExError(serde_json::Error);

/// A JSON document as a tree of plain values.
pub enum Json {
    Null,
    Bool(bool),
    /// A number, as the bit pattern of the double that stands for it.
    Number(u64),
    Text(Seq<char>),
    Array(Seq<Json>),
    Object(Map<Seq<char>, Json>),
}

impl Json {
    /// The member `key` of an object; nothing for a missing key and for
    /// anything that is not an object.
    pub open spec fn member(self, key: Seq<char>) -> Option<Json> {
        match self {
            Json::Object(fields) => if fields.contains_key(key) {
                Some(fields[key])
            } else {
                None
            },
            _ => None,
        }
    }

    /// The element at `index` of an array; nothing beyond its end and for
    /// anything that is not an array.
    pub open spec fn element(self, index: int) -> Option<Json> {
        match self {
            Json::Array(items) => if 0 <= index < items.len() {
                Some(items[index])
            } else {
                None
            },
            _ => None,
        }
    }

    /// The bit pattern of a number; nothing for anything else.
    pub open spec fn number(self) -> Option<u64> {
        match self {
            Json::Number(bits) => Some(bits),
            _ => None,
        }
    }

    /// The characters of a string; nothing for anything else.
    pub open spec fn text(self) -> Option<Seq<char>> {
        match self {
            Json::Text(chars) => Some(chars),
            _ => None,
        }
    }
}

/// The tree that a decoded document stands for.
pub uninterp spec fn json_of(value: serde_json::Value) -> Json;

/// The document that `serde_json` decodes from `bytes`, or nothing where it
/// rejects them.
pub uninterp spec fn parsed(bytes: Seq<u8>) -> Option<Json>;

/// `serde_json::from_slice` at `Value`: decodes a JSON text. The outcome is
/// a function of the bytes alone; the contract gives it the name [`parsed`]
/// and claims nothing else of it.
#[verifier::external_body]
pub(crate) fn decode(bytes: &[u8]) -> (r: Result<serde_json::Value, serde_json::Error>)
    ensures
        match r {
            Ok(value) => parsed(bytes@) == Some(json_of(value)),
            Err(_) => parsed(bytes@) is None,
        },
{
    serde_json::from_slice(bytes)
}

/// `Value::get` with a string index: the member of that name where the value
/// is an object that has one, and nothing otherwise.
#[verifier::external_body]
pub(crate) fn member<'a>(value: &'a serde_json::Value, key: &str) -> (r: Option<
    &'a serde_json::Value,
>)
    ensures
        match r {
            Some(found) => json_of(*value).member(key@) == Some(json_of(*found)),
            None => json_of(*value).member(key@) is None,
        },
{
    value.get(key)
}

/// `Value::get` with a number index: the element at that position where the
/// value is an array that is long enough, and nothing otherwise.
#[verifier::external_body]
pub(crate) fn element<'a>(value: &'a serde_json::Value, index: usize) -> (r: Option<
    &'a serde_json::Value,
>)
    ensures
        match r {
            Some(found) => json_of(*value).element(index as int) == Some(json_of(*found)),
            None => json_of(*value).element(index as int) is None,
        },
{
    value.get(index)
}

/// `Value::is_object`: whether the value is an object.
#[verifier::external_body]
pub(crate) fn is_object(value: &serde_json::Value) -> (r: bool)
    ensures
        r == (json_of(*value) is Object),
{
    value.is_object()
}

/// `Value::as_f64`, with the double handed on as its bit pattern: present
/// exactly where the value is a number.
#[verifier::external_body]
pub(crate) fn number_bits(value: &serde_json::Value) -> (r: Option<u64>)
    ensures
        r == json_of(*value).number(),
{
    value.as_f64().map(|number| number.to_bits())
}

/// `Value::as_str`: the characters of the value where it is a string, and
/// nothing otherwise.
#[verifier::external_body]
pub(crate) fn text<'a>(value: &'a serde_json::Value) -> (r: Option<&'a str>)
    ensures
        match r {
            Some(chars) => json_of(*value).text() == Some(chars@),
            None => json_of(*value).text() is None,
        },
{
    value.as_str()
}

} // verus!

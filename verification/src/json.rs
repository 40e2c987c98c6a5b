//! Reading a decoded JSON document.
//!
//! A response body arrives as a `serde_json::Value`, and the query of the
//! inventory request leaves as a `serde_json::Map`. The verifier does not
//! look inside either. What they hold is modelled by [`Json`], and the
//! functions of `serde_json` that read and build them are specified over
//! that model.

use vstd::prelude::*;

verus! {

/// A JSON document, as far as a run reads it.
pub enum Json {
    Null,
    Bool(bool),
    /// A number that can be read as an unsigned integer.
    Unsigned(u64),
    /// Any other number: a negative one, or one that is no integer.
    OtherNumber,
    Text(Seq<char>),
    Array(Seq<Json>),
    Object(Map<Seq<char>, Json>),
}

impl Json {
    /// The member that an object holds under `key`; `None` where the
    /// document is no object or the object has no such member.
    pub open spec fn member(self, key: Seq<char>) -> Option<Json> {
        match self {
            Json::Object(members) => if members.contains_key(key) {
                Some(members[key])
            } else {
                None
            },
            _ => None,
        }
    }

    /// The elements of an array, in order; `None` where the document is no
    /// array.
    pub open spec fn items(self) -> Option<Seq<Json>> {
        match self {
            Json::Array(items) => Some(items),
            _ => None,
        }
    }

    /// The number as an unsigned integer; `None` where the document is no
    /// such number.
    pub open spec fn as_u64(self) -> Option<u64> {
        match self {
            Json::Unsigned(n) => Some(n),
            _ => None,
        }
    }

    /// The characters of a string; `None` where the document is no string.
    pub open spec fn as_text(self) -> Option<Seq<char>> {
        match self {
            Json::Text(text) => Some(text),
            _ => None,
        }
    }

    /// The truth value; `None` where the document is no boolean.
    pub open spec fn as_bool(self) -> Option<bool> {
        match self {
            Json::Bool(b) => Some(b),
            _ => None,
        }
    }

    /// The unsigned integer that an object holds under `key`.
    pub open spec fn u64_member(self, key: Seq<char>) -> Option<u64> {
        match self.member(key) {
            Some(member) => member.as_u64(),
            None => None,
        }
    }

    /// The text that an object holds under `key`.
    pub open spec fn text_member(self, key: Seq<char>) -> Option<Seq<char>> {
        match self.member(key) {
            Some(member) => member.as_text(),
            None => None,
        }
    }

    /// The truth value that an object holds under `key`.
    pub open spec fn bool_member(self, key: Seq<char>) -> Option<bool> {
        match self.member(key) {
            Some(member) => member.as_bool(),
            None => None,
        }
    }
}

/// A decoded JSON document of `serde_json`, opaque to the verifier.
#[verifier::external_type_specification]
#[verifier::external_body]
pub struct ExValue(serde_json::Value);

/// The document that a value of `serde_json` holds.
pub uninterp spec fn json_of(v: serde_json::Value) -> Json;

/// The documents that a list of values holds.
pub open spec fn jsons_of(values: Seq<serde_json::Value>) -> Seq<Json> {
    values.map_values(|v: serde_json::Value| json_of(v))
}

/// `serde_json::Value::get` with a string index: the member of an object
/// under a key, or `None` where the value is no object or lacks the key.
#[verifier::external_body]
pub(crate) fn member<'a>(v: &'a serde_json::Value, key: &str) -> (r: Option<&'a serde_json::Value>)
    ensures
        r matches Some(m) ==> json_of(*v).member(key@) == Some(json_of(*m)),
        r is None ==> json_of(*v).member(key@) is None,
{
    v.get(key)
}

/// `serde_json::Value::as_array`: the elements of an array, or `None` where
/// the value is no array.
#[verifier::external_body]
pub(crate) fn items<'a>(v: &'a serde_json::Value) -> (r: Option<&'a Vec<serde_json::Value>>)
    ensures
        r matches Some(a) ==> json_of(*v).items() == Some(jsons_of(a@)),
        r is None ==> json_of(*v).items() is None,
{
    v.as_array()
}

/// `serde_json::Value::as_u64`: the value as a `u64`, or `None` where it is
/// no number or the number cannot be read as a `u64`.
#[verifier::external_body]
pub(crate) fn as_u64(v: &serde_json::Value) -> (r: Option<u64>)
    ensures
        r == json_of(*v).as_u64(),
{
    v.as_u64()
}

/// `serde_json::Value::as_str`: the text of a string, or `None` where the
/// value is no string.
#[verifier::external_body]
pub(crate) fn as_str<'a>(v: &'a serde_json::Value) -> (r: Option<&'a str>)
    ensures
        r matches Some(s) ==> json_of(*v).as_text() == Some(s@),
        r is None ==> json_of(*v).as_text() is None,
{
    v.as_str()
}

/// `serde_json::Value::as_bool`: the truth value of a boolean, or `None`
/// where the value is no boolean.
#[verifier::external_body]
pub(crate) fn as_bool(v: &serde_json::Value) -> (r: Option<bool>)
    ensures
        r == json_of(*v).as_bool(),
{
    v.as_bool()
}

/// A map of `serde_json` from keys to values, opaque to the verifier.
#[verifier::external_type_specification]
#[verifier::external_body]
#[verifier::reject_recursive_types(K)]
#[verifier::reject_recursive_types(V)]
pub struct ExMap<K, V>(serde_json::Map<K, V>);

/// What a map of `serde_json` holds: the document under each of its keys.
pub uninterp spec fn members_of(m: serde_json::Map<String, serde_json::Value>) -> Map<Seq<char>, Json>;

/// What an empty map holds: nothing.
pub open spec fn no_members() -> Map<Seq<char>, Json> {
    Map::empty()
}

/// `serde_json::Map::new`: a map that holds nothing.
#[verifier::external_body]
pub(crate) fn new_map() -> (r: serde_json::Map<String, serde_json::Value>)
    ensures
        members_of(r) == no_members(),
{
    serde_json::Map::new()
}

/// `serde_json::Map::insert`: afterwards the map holds the value under the
/// key, in place of what it held there before, and everything else as
/// before.
#[verifier::external_body]
pub(crate) fn insert_member(m: &mut serde_json::Map<String, serde_json::Value>, key: String, value: serde_json::Value)
    ensures
        members_of(*final(m)) == members_of(*old(m)).insert(key@, json_of(value)),
{
    m.insert(key, value);
}

/// `serde_json::Value::String`: the value that holds a text.
#[verifier::external_body]
pub(crate) fn text_value(text: String) -> (v: serde_json::Value)
    ensures
        json_of(v) == Json::Text(text@),
{
    serde_json::Value::String(text)
}

/// `serde_json::Number::from` an unsigned integer, in `Value::Number`: the
/// value that holds the number, which reads back as that integer.
#[verifier::external_body]
pub(crate) fn number_value(n: u32) -> (v: serde_json::Value)
    ensures
        json_of(v) == Json::Unsigned(n as u64),
{
    serde_json::Value::Number(serde_json::Number::from(n))
}

/// Reads an unsigned integer member of an object.
pub fn u64_member(v: &serde_json::Value, key: &str) -> (r: Option<u64>)
    ensures
        r == json_of(*v).u64_member(key@),
{
    match member(v, key) {
        Some(m) => as_u64(m),
        None => None,
    }
}

/// Reads a text member of an object.
pub fn text_member(v: &serde_json::Value, key: &str) -> (r: Option<String>)
    ensures
        r.deep_view() == json_of(*v).text_member(key@),
{
    match member(v, key) {
        Some(m) => match as_str(m) {
            Some(s) => Some(s.to_owned()),
            None => None,
        },
        None => None,
    }
}

/// Reads a boolean member of an object.
pub fn bool_member(v: &serde_json::Value, key: &str) -> (r: Option<bool>)
    ensures
        r == json_of(*v).bool_member(key@),
{
    match member(v, key) {
        Some(m) => as_bool(m),
        None => None,
    }
}

} // verus!

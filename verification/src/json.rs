//! JSON documents, as `serde_json` reads them.
//!
//! A document is held as a `serde_json::Value`, which is opaque here: what
//! it holds is named by [`json_model`], and the functions of this module are
//! the only way to look into one. None of them is proved; each states what
//! the corresponding `serde_json` function is documented to do.

use vstd::prelude::*;

verus! {

/// `serde_json::Value`, declared so that it can be named. Nothing inside a
/// value is visible; nothing is claimed of the type.
#[verifier::external_type_specification]
#[verifier::external_body]
pub struct ExJsonValue(serde_json::Value);

/// `serde_json::Error`, declared so that it can be named. Nothing inside a
/// value is visible; nothing is claimed of the type.
#[verifier::external_type_specification]
#[verifier::external_body]
pub struct ExJsonError(serde_json::Error);

/// A JSON document as a mathematical value.
pub enum JsonModel {
    Null,
    Bool(bool),
    /// A number; as a `u64` where `serde_json` holds it as an unsigned
    /// integer, and nothing otherwise (a negative number, or one written
    /// with a fraction or an exponent, such as `1.0`).
    Number(Option<u64>),
    Text(Seq<char>),
    Array(Seq<JsonModel>),
    Object(Map<Seq<char>, JsonModel>),
}

/// What a `serde_json::Value` holds.
pub uninterp spec fn json_model(v: serde_json::Value) -> JsonModel;

/// What `serde_json::from_str` makes of a text: the document that the text
/// spells, or nothing where it rejects the text.
pub uninterp spec fn json_of_text(text: Seq<char>) -> Option<JsonModel>;

/// The models of the documents of a list, in the same order.
pub open spec fn json_models(items: Seq<serde_json::Value>) -> Seq<JsonModel> {
    Seq::new(items.len(), |i: int| json_model(items[i]))
}

/// `serde_json::from_str` at type `Value`: reads a text as one JSON document.
/// Whether it succeeds, and what the document then holds, depends on the
/// text alone.
#[verifier::external_body]
pub(crate) fn json_parse(text: &str) -> (r: Result<serde_json::Value, serde_json::Error>)
    ensures
        match r {
            Ok(v) => json_of_text(text@) == Some(json_model(v)),
            Err(_) => json_of_text(text@) is None,
        },
{
    serde_json::from_str::<serde_json::Value>(text)
}

/// The `Display` text of a `serde_json::Error`. Nothing is claimed of it.
#[verifier::external_body]
pub(crate) fn json_error_text(e: &serde_json::Error) -> (r: String) {
    e.to_string()
}

/// `Value::get` with a string index: the member of that name where the
/// document is an object that has one, and nothing otherwise.
#[verifier::external_body]
pub(crate) fn json_get<'a>(v: &'a serde_json::Value, key: &str) -> (r: Option<
    &'a serde_json::Value,
>)
    ensures
        match r {
            Some(member) => json_model(*v) matches JsonModel::Object(m) && m.contains_key(key@)
                && m[key@] == json_model(*member),
            None => !(json_model(*v) matches JsonModel::Object(m) && m.contains_key(key@)),
        },
{
    v.get(key)
}

/// `Value::as_str`: the text where the document is a string, and nothing
/// otherwise.
#[verifier::external_body]
pub(crate) fn json_as_str<'a>(v: &'a serde_json::Value) -> (r: Option<&'a str>)
    ensures
        match r {
            Some(s) => json_model(*v) == JsonModel::Text(s@),
            None => !(json_model(*v) is Text),
        },
{
    v.as_str()
}

/// `Value::as_array`: the elements where the document is an array, and
/// nothing otherwise.
#[verifier::external_body]
pub(crate) fn json_as_array<'a>(v: &'a serde_json::Value) -> (r: Option<
    &'a Vec<serde_json::Value>,
>)
    ensures
        match r {
            Some(items) => json_model(*v) == JsonModel::Array(json_models(items@)),
            None => !(json_model(*v) is Array),
        },
{
    v.as_array()
}

/// `Value::as_u64`: the number where the document is a number that
/// `serde_json` holds as an unsigned integer, and nothing otherwise.
#[verifier::external_body]
pub(crate) fn json_as_u64(v: &serde_json::Value) -> (r: Option<u64>)
    ensures
        match r {
            Some(n) => json_model(*v) == JsonModel::Number(Some(n)),
            None => !(json_model(*v) matches JsonModel::Number(Some(_))),
        },
{
    v.as_u64()
}

} // verus!

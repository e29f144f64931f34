//! JSON documents, read with `serde_json`.
//!
//! A parsed document is a `serde_json::Value`, which the verifier cannot look
//! into. Contracts speak of it through [`json_tree`], its mathematical model.
//! Everything in this module that touches a `Value` is trusted, not proved.

use vstd::prelude::*;
use serde_json::Value;

verus! {

/// Makes `serde_json::Value` known to the verifier, as a type it cannot
/// look into.
#[verifier::external_type_specification]
#[verifier::external_body]
pub struct ExValue(serde_json::Value);

/// The mathematical model of a JSON document.
pub enum JsonTree {
    Null,
    Bool(bool),
    /// A number. It holds the value where `serde_json` holds the number as
    /// an unsigned integer, and `None` for every other number: a negative
    /// one, and one written with a fraction or an exponent, such as `1.0`.
    Number(Option<u64>),
    Text(Seq<char>),
    Array(Seq<JsonTree>),
    Object(Map<Seq<char>, JsonTree>),
}

/// What the document `v` holds.
pub uninterp spec fn json_tree(v: Value) -> JsonTree;

/// What `serde_json::from_str` makes of `text`: the document, or the message
/// of the error with which it refuses the text.
pub uninterp spec fn json_parse(text: Seq<char>) -> Result<JsonTree, Seq<char>>;

/// The member of `t` under `key`: `Null` where `t` is no object or has no
/// such member.
pub open spec fn member(t: JsonTree, key: Seq<char>) -> JsonTree {
    match t {
        JsonTree::Object(m) => if m.dom().contains(key) {
            m[key]
        } else {
            JsonTree::Null
        },
        _ => JsonTree::Null,
    }
}

/// The text of `t`, where `t` is a string.
pub open spec fn text_of(t: JsonTree) -> Option<Seq<char>> {
    match t {
        JsonTree::Text(s) => Some(s),
        _ => None,
    }
}

/// The value of `t`, where `t` is a number that `serde_json` holds as an
/// unsigned integer.
pub open spec fn number_of(t: JsonTree) -> Option<u64> {
    match t {
        JsonTree::Number(n) => n,
        _ => None,
    }
}

/// The elements of `t`, where `t` is an array.
pub open spec fn elements_of(t: JsonTree) -> Option<Seq<JsonTree>> {
    match t {
        JsonTree::Array(items) => Some(items),
        _ => None,
    }
}

/// The models of the documents in `items`, in order.
pub open spec fn trees_of(items: Seq<Value>) -> Seq<JsonTree> {
    Seq::new(items.len(), |i: int| json_tree(items[i]))
}

/// Calls `serde_json::from_str` for a `Value`. Trusted: the result is the
/// document that `json_parse` names for this text, or the text of the
/// error (its `Display` form) where `serde_json` refuses the input.
#[verifier::external_body]
pub(crate) fn parse(text: &str) -> (r: Result<Value, String>)
    ensures
        match r {
            Ok(v) => json_parse(text@) == Ok::<JsonTree, Seq<char>>(json_tree(v)),
            Err(message) => json_parse(text@) == Err::<JsonTree, Seq<char>>(message@),
        },
{
    match serde_json::from_str::<Value>(text) {
        Ok(v) => Ok(v),
        Err(e) => Err(e.to_string()),
    }
}

/// Indexes a `Value` by a key (`Index<&str>` of `Value`). Trusted: the
/// result is the member under `key` if `v` is an object that has one, and
/// the null document otherwise; the call does not panic.
#[verifier::external_body]
pub(crate) fn get<'a>(v: &'a Value, key: &str) -> (r: &'a Value)
    ensures
        json_tree(*r) == member(json_tree(*v), key@),
{
    &v[key]
}

/// Calls `Value::as_str`. Trusted: the result is the text of a string
/// document and `None` for any other.
#[verifier::external_body]
pub(crate) fn as_text<'a>(v: &'a Value) -> (r: Option<&'a str>)
    ensures
        match r {
            Some(s) => text_of(json_tree(*v)) == Some(s@),
            None => text_of(json_tree(*v)) is None,
        },
{
    v.as_str()
}

/// Calls `Value::as_u64`. Trusted: the result is the value of a number that
/// `serde_json` holds as an unsigned integer and `None` for any other
/// document.
#[verifier::external_body]
pub(crate) fn as_number(v: &Value) -> (r: Option<u64>)
    ensures
        r == number_of(json_tree(*v)),
{
    v.as_u64()
}

/// Calls `Value::as_array`. Trusted: the result is the vector of the
/// elements of an array document, in order, and `None` for any other.
#[verifier::external_body]
pub(crate) fn as_elements<'a>(v: &'a Value) -> (r: Option<&'a Vec<Value>>)
    ensures
        match r {
            Some(items) => elements_of(json_tree(*v)) == Some(trees_of(items@)),
            None => elements_of(json_tree(*v)) is None,
        },
{
    v.as_array()
}

} // verus!

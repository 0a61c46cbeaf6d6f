//! JSON documents, as `serde_json` reads them.
//!
//! A document is seen as what its places hold. A place is named by the steps
//! that lead to it: the keys of objects, and the positions of arrays in decimal.

use vstd::prelude::*;

use crate::text::decimal;

verus! {

/// A JSON value.
#[verifier::external_type_specification]
#[verifier::external_body]
pub struct ExValue(serde_json::Value);

/// What stands at one place of a document.
pub enum JsonLeaf {
    Null,
    Bool(bool),
    /// The number as an unsigned 64-bit one, where it is such, and the bits of
    /// the 64-bit float for it, where there is one.
    Number { whole: Option<u64>, double: Option<u64> },
    Text,
    Array(nat),
    Object,
}

/// What the places of a value hold, by the steps that lead to them.
pub uninterp spec fn json_contents(value: serde_json::Value) -> Map<Seq<Seq<char>>, JsonLeaf>;

/// What the places of the document with this text hold, or why the text is no
/// document.
pub uninterp spec fn json_document(text: Seq<char>) -> Result<
    Map<Seq<Seq<char>>, JsonLeaf>,
    Seq<char>,
>;

/// What stands at the top.
pub open spec fn top(contents: Map<Seq<Seq<char>>, JsonLeaf>) -> JsonLeaf {
    contents[Seq::empty()]
}

/// The part of a document behind one step.
pub open spec fn behind(contents: Map<Seq<Seq<char>>, JsonLeaf>, step: Seq<char>) -> Map<
    Seq<Seq<char>>,
    JsonLeaf,
> {
    Map::new(
        |path: Seq<Seq<char>>| contents.contains_key(seq![step] + path),
        |path: Seq<Seq<char>>| contents[seq![step] + path],
    )
}

/// The member of an object; null where there is none, or no object.
pub open spec fn member_of(contents: Map<Seq<Seq<char>>, JsonLeaf>, key: Seq<char>) -> Map<
    Seq<Seq<char>>,
    JsonLeaf,
> {
    if top(contents) is Object && contents.contains_key(seq![key]) {
        behind(contents, key)
    } else {
        map![Seq::empty() => JsonLeaf::Null]
    }
}

/// The top as an unsigned number.
pub open spec fn whole_of(contents: Map<Seq<Seq<char>>, JsonLeaf>) -> Option<u64> {
    match top(contents) {
        JsonLeaf::Number { whole, .. } => whole,
        _ => None,
    }
}

/// The top as the bits of a 64-bit float.
pub open spec fn double_of(contents: Map<Seq<Seq<char>>, JsonLeaf>) -> Option<u64> {
    match top(contents) {
        JsonLeaf::Number { double, .. } => double,
        _ => None,
    }
}

/// The top as a truth value.
pub open spec fn bool_of(contents: Map<Seq<Seq<char>>, JsonLeaf>) -> Option<bool> {
    match top(contents) {
        JsonLeaf::Bool(value) => Some(value),
        _ => None,
    }
}

/// Reads a text with `serde_json::from_str`. What it gives, the value or the
/// message of its error, is named [`json_document`]; how a text is read is
/// otherwise left unsaid.
#[verifier::external_body]
pub(crate) fn parse(text: &str) -> (r: Result<serde_json::Value, String>)
    ensures
        match r {
            Ok(value) => json_document(text@) == Ok::<
                Map<Seq<Seq<char>>, JsonLeaf>,
                Seq<char>,
            >(json_contents(value)),
            Err(cause) => json_document(text@) == Err::<
                Map<Seq<Seq<char>>, JsonLeaf>,
                Seq<char>,
            >(cause@),
        },
{
    match serde_json::from_str::<serde_json::Value>(text) {
        Ok(value) => Ok(value),
        Err(error) => Err(error.to_string()),
    }
}

/// Takes a member with the index operator of `serde_json::Value`: null where
/// the value is no object or has no such key.
#[verifier::external_body]
pub(crate) fn member<'a>(value: &'a serde_json::Value, key: &str) -> (r: &'a serde_json::Value)
    ensures
        json_contents(*r) == member_of(json_contents(*value), key@),
{
    &value[key]
}

/// `serde_json::Value::is_object`.
#[verifier::external_body]
pub(crate) fn is_object(value: &serde_json::Value) -> (r: bool)
    ensures
        r == (top(json_contents(*value)) is Object),
{
    value.is_object()
}

/// `serde_json::Value::as_array`: the items of an array in their order.
#[verifier::external_body]
pub(crate) fn as_array<'a>(value: &'a serde_json::Value) -> (r: Option<&'a Vec<serde_json::Value>>)
    ensures
        match r {
            Some(items) => {
                &&& top(json_contents(*value)) == JsonLeaf::Array(items@.len())
                &&& forall|i: int|
                    0 <= i < items@.len() ==> json_contents(#[trigger] items@[i]) == behind(
                        json_contents(*value),
                        decimal(i as nat),
                    )
            },
            None => top(json_contents(*value)) !is Array,
        },
{
    value.as_array()
}

/// `serde_json::Value::as_u64`.
#[verifier::external_body]
pub(crate) fn as_u64(value: &serde_json::Value) -> (r: Option<u64>)
    ensures
        r == whole_of(json_contents(*value)),
{
    value.as_u64()
}

/// `serde_json::Value::as_f64`, as bits.
#[verifier::external_body]
pub(crate) fn as_double(value: &serde_json::Value) -> (r: Option<u64>)
    ensures
        r == double_of(json_contents(*value)),
{
    match value.as_f64() {
        Some(number) => Some(number.to_bits()),
        None => None,
    }
}

/// `serde_json::Value::as_bool`.
#[verifier::external_body]
pub(crate) fn as_bool(value: &serde_json::Value) -> (r: Option<bool>)
    ensures
        r == bool_of(json_contents(*value)),
{
    value.as_bool()
}

} // verus!

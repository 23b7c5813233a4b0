//! From bytes to a tree of values. The reading of JSON itself is left to
//! `serde_json`.

use crate::json::{JsonNumber, JsonValue, JsonView};
use serde_json::Value;
use vstd::prelude::*;

verus! {

/// `serde_json::Value`: the tree as `serde_json` holds it. It is copied, and
/// nothing is said of what is in it.
#[verifier::external_type_specification]
#[verifier::external_body]
pub struct ExValue(Value);

/// `serde_json::Error`: why `serde_json` read no tree. Only its message is
/// taken from it.
#[verifier::external_type_specification]
#[verifier::external_body]
pub struct ExError(serde_json::Error);

/// The tree that `serde_json` reads from a sequence of bytes, where it reads
/// one.
pub uninterp spec fn json_document(bytes: Seq<u8>) -> Option<JsonView>;

/// The tree that a `serde_json::Value` holds.
pub uninterp spec fn tree_of(v: Value) -> JsonView;

/// Calls `serde_json::from_slice` for a `serde_json::Value`. The one thing
/// claimed is that the outcome depends on the bytes alone: the same bytes
/// give a value that holds the same tree, or fail, every time.
#[verifier::external_body]
pub(crate) fn read_document(bytes: &[u8]) -> (r: Result<Value, serde_json::Error>)
    ensures
        match r {
            Ok(v) => json_document(bytes@) == Some(tree_of(v)),
            Err(_) => json_document(bytes@) is None,
        },
{
    serde_json::from_slice::<Value>(bytes)
}

/// Copies a `serde_json::Value` into a [`JsonValue`], variant by variant: a
/// number by the first of `as_u64`, `as_i64` and `as_f64` that gives it, the
/// members of an object in the order in which its map hands them out. The
/// copy is what gives the tree of a value its name; nothing else is claimed
/// of it.
#[verifier::external_body]
pub(crate) fn copy_tree(v: &Value) -> (r: JsonValue)
    ensures
        r@ == tree_of(*v),
{
    match v {
        Value::Null => JsonValue::Null,
        Value::Bool(b) => JsonValue::Bool(*b),
        Value::Number(n) => JsonValue::Number(
            n.as_u64().map(JsonNumber::PosInt).or(n.as_i64().map(JsonNumber::NegInt)).unwrap_or(
                JsonNumber::Float(n.as_f64().map_or(0, |x| x.to_bits())),
            ),
        ),
        Value::String(s) => JsonValue::String(s.clone()),
        Value::Array(a) => JsonValue::Array(a.iter().map(copy_tree).collect()),
        Value::Object(o) => JsonValue::Object(
            o.iter().map(|(k, x)| (k.clone(), copy_tree(x))).collect(),
        ),
    }
}

/// Calls `to_string` on a `serde_json::Error`: the message, with the line and
/// column where the reading stopped. Nothing is claimed of the text.
#[verifier::external_body]
pub(crate) fn syntax_message(e: &serde_json::Error) -> (message: String) {
    e.to_string()
}

} // verus!

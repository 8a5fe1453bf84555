//! JSON documents, as `serde_json` reads and writes them.
//!
//! `JsonTree` is what a `serde_json::Value` holds, and `value_tree` takes one to the other. The
//! functions below make one call into `serde_json` each; what they claim of it is stated over trees.
use crate::nesting::{shallow, READABLE_DEPTH};
use serde_json::Value;
use vstd::prelude::*;

verus! {

/// `serde_json::Value`, a JSON document in memory.
#[verifier::external_type_specification]
#[verifier::external_body]
pub struct ExValue(serde_json::Value);

/// `serde_json::Error`, why bytes are no JSON document or a value cannot be written as one.
#[verifier::external_type_specification]
#[verifier::external_body]
pub struct ExJsonError(serde_json::Error);

/// A JSON document. The values of its numbers are left open.
pub enum JsonTree {
    Null,
    Bool(bool),
    Number,
    Text(Seq<char>),
    List(Seq<JsonTree>),
    Members(Map<Seq<char>, JsonTree>),
}

/// What a `serde_json::Value` holds.
pub uninterp spec fn value_tree(value: serde_json::Value) -> JsonTree;

/// What `serde_json::from_slice` reads from bytes; `None` where it refuses them.
pub uninterp spec fn json_read(bytes: Seq<u8>) -> Option<JsonTree>;

/// `serde_json::from_slice::<Value>`: reads bytes as one JSON document, or refuses them. Which of
/// the two, and which document, depends on the bytes alone. Left out are bytes on which it could
/// recurse more than `READABLE_LEVELS` levels and exhaust the stack.
#[verifier::external_body]
pub(crate) fn read_json(bytes: &[u8]) -> (r: Result<Value, serde_json::Error>)
    requires
        shallow(bytes@),
    ensures
        match r {
            Ok(value) => json_read(bytes@) == Some(value_tree(value)),
            Err(_) => json_read(bytes@) is None,
        },
{
    serde_json::from_slice(bytes)
}

/// `Value::is_object`: whether the document is an object.
#[verifier::external_body]
pub(crate) fn is_object(value: &Value) -> (r: bool)
    ensures
        r == (value_tree(*value) is Members),
{
    value.is_object()
}

/// `Value::as_array`: the items of an array, in order; `None` for any other document.
#[verifier::external_body]
pub(crate) fn array_items(value: &Value) -> (r: Option<&Vec<Value>>)
    ensures
        match r {
            Some(items) => value_tree(*value) == JsonTree::List(
                items@.map_values(|item: Value| value_tree(item)),
            ),
            None => !(value_tree(*value) is List),
        },
{
    value.as_array()
}

/// The member of a document that has the given name, where the document is an object that has one.
pub open spec fn tree_member(tree: JsonTree, name: Seq<char>) -> Option<JsonTree> {
    match tree {
        JsonTree::Members(members) if members.contains_key(name) => Some(members[name]),
        _ => None,
    }
}

/// `Value::get` with a text as the index: the member of that name, where the document is an object
/// that has one; `None` otherwise.
#[verifier::external_body]
pub(crate) fn member<'a>(value: &'a Value, name: &str) -> (r: Option<&'a Value>)
    ensures
        match r {
            Some(found) => tree_member(value_tree(*value), name@) == Some(value_tree(*found)),
            None => tree_member(value_tree(*value), name@) is None,
        },
{
    value.get(name)
}

/// `Value::as_str`: the text of a JSON string; `None` for any other document.
#[verifier::external_body]
pub(crate) fn string_text(value: &Value) -> (r: Option<&str>)
    ensures
        match r {
            Some(text) => value_tree(*value) == JsonTree::Text(text@),
            None => !(value_tree(*value) is Text),
        },
{
    value.as_str()
}

/// `Value::from` on a text: the JSON string of that text.
#[verifier::external_body]
pub(crate) fn text_value(text: &str) -> (r: Value)
    ensures
        value_tree(r) == JsonTree::Text(text@),
{
    Value::from(text)
}

/// The object whose one member has the given name.
pub open spec fn single_member(name: Seq<char>, tree: JsonTree) -> JsonTree {
    JsonTree::Members(map![name => tree])
}

/// `Value::from_iter` on one pair of a name and a value: the object with that one member.
#[verifier::external_body]
pub(crate) fn single_member_value(name: &str, value: Value) -> (r: Value)
    ensures
        value_tree(r) == single_member(name@, value_tree(value)),
{
    Value::from_iter([(name, value)])
}

/// Whether a document is a text inside at most `depth` objects, each with one member whose name
/// does not begin with a dollar sign.
pub open spec fn is_wrapped_text(tree: JsonTree, depth: nat) -> bool
    decreases depth,
{
    match tree {
        JsonTree::Text(_) => true,
        JsonTree::Members(members) => {
            &&& depth > 0
            &&& members.dom().len() == 1
            &&& forall|name: Seq<char>| #[trigger]
                members.contains_key(name) ==> {
                    &&& !(name.len() > 0 && name.first() == '$')
                    &&& is_wrapped_text(members[name], (depth - 1) as nat)
                }
        },
        _ => false,
    }
}

/// The bytes that `serde_json::to_vec` writes for a document.
pub uninterp spec fn json_written(tree: JsonTree) -> Seq<u8>;

/// `serde_json::to_vec` on a `Value` that is a text inside nested one-member objects: writing it
/// succeeds, the bytes depend on the document alone, and `serde_json::from_slice` reads the same
/// document back from them. Left out are documents that nest deeper than is read (writing recurses
/// without a limit), that have numbers, arrays or several members, or names that `serde_json` keeps
/// for itself.
#[verifier::external_body]
pub(crate) fn write_json(value: &Value) -> (r: Result<Vec<u8>, serde_json::Error>)
    requires
        is_wrapped_text(value_tree(*value), READABLE_DEPTH as nat),
    ensures
        match r {
            Ok(bytes) => {
                &&& bytes@ == json_written(value_tree(*value))
                &&& json_read(bytes@) == Some(value_tree(*value))
            },
            Err(_) => false,
        },
{
    serde_json::to_vec(value)
}

}

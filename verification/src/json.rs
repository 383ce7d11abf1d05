//! JSON documents of the `serde_json` crate, as far as project files need
//! them. Nothing in this file is proved: the contracts say what the library
//! takes the crate's functions to do.

use vstd::prelude::*;

verus! {

/// What a JSON value holds. Of a number only its kind is kept.
pub enum JsonTree {
    Null,
    Bool(bool),
    Number,
    Text(Seq<char>),
    List(Seq<JsonTree>),
    Object(Map<Seq<char>, JsonTree>),
}

/// The member `key` of a JSON object, `None` where `tree` is no object or
/// has no such member.
pub open spec fn member_of(tree: JsonTree, key: Seq<char>) -> Option<JsonTree> {
    match tree {
        JsonTree::Object(members) => if members.contains_key(key) {
            Some(members[key])
        } else {
            None
        },
        _ => None,
    }
}

/// `serde_json::Value`, a parsed JSON value. Its inside is not visible to the
/// verifier.
#[verifier::external_type_specification]
#[verifier::external_body]
pub struct ExJsonValue(serde_json::Value);

/// `serde_json::Error`, the reason why a text was not parsed.
#[verifier::external_type_specification]
#[verifier::external_body]
pub struct ExJsonError(serde_json::Error);

/// What `value` holds.
pub uninterp spec fn tree(value: serde_json::Value) -> JsonTree;

/// What the value holds that `serde_json::from_str` reads from `text`,
/// `None` where it reports an error.
pub uninterp spec fn document(text: Seq<char>) -> Option<JsonTree>;

/// What each of `values` holds.
pub open spec fn trees(values: Seq<serde_json::Value>) -> Seq<JsonTree> {
    Seq::new(values.len(), |i: int| tree(values[i]))
}

/// Calls `serde_json::from_str` for a `serde_json::Value`. Whether it
/// succeeds, and what the value holds that it gives, depend on the text
/// alone.
#[verifier::external_body]
pub(crate) fn parse(text: &str) -> (r: Result<serde_json::Value, serde_json::Error>)
    ensures
        match r {
            Ok(value) => document(text@) == Some(tree(value)),
            Err(_) => document(text@) is None,
        },
{
    serde_json::from_str::<serde_json::Value>(text)
}

/// Calls `serde_json::Value::get` with a string index, which gives the
/// member of that name where the value is an object that has one, and
/// nothing else.
#[verifier::external_body]
pub(crate) fn get<'a>(value: &'a serde_json::Value, key: &str) -> (r: Option<&'a serde_json::Value>)
    ensures
        match r {
            Some(found) => member_of(tree(*value), key@) == Some(tree(*found)),
            None => member_of(tree(*value), key@) is None,
        },
{
    value.get(key)
}

/// `serde_json::Value::as_str` hands out the text of a JSON string and
/// nothing for any other value.
pub assume_specification<'a>[ serde_json::Value::as_str ](value: &'a serde_json::Value) -> (r:
    Option<&'a str>)
    ensures
        match r {
            Some(text) => tree(*value) == JsonTree::Text(text@),
            None => !(tree(*value) is Text),
        },
;

/// `serde_json::Value::as_array` hands out the elements of a JSON array and
/// nothing for any other value.
pub assume_specification<'a>[ serde_json::Value::as_array ](value: &'a serde_json::Value) -> (r:
    Option<&'a Vec<serde_json::Value>>)
    ensures
        match r {
            Some(items) => tree(*value) == JsonTree::List(trees(items@)),
            None => !(tree(*value) is List),
        },
;

} // verus!

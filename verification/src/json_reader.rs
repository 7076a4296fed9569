//! Reading JSON text into a document tree, by way of `serde_json`.
//!
//! The parser and the values it returns are not verified. What is believed of
//! them is stated at the top of this file; the copy of a value into a tree is
//! proved against it.

use vstd::prelude::*;
use crate::document::{Doc, Tree};

verus! {

/// `serde_json::Value`. Nothing inside it is visible to the verifier.
#[verifier::external_type_specification]
#[verifier::external_body]
pub struct ExJsonValue(serde_json::Value);

/// `serde_json::Error`. Nothing inside it is visible to the verifier.
#[verifier::external_type_specification]
#[verifier::external_body]
pub struct ExJsonError(serde_json::Error);

/// The document that a `serde_json::Value` holds: its strings as text, its
/// arrays as lists, its objects as tables in the order in which the object
/// hands out its entries, and everything else as `Doc::Other`.
pub uninterp spec fn json_doc(value: serde_json::Value) -> Doc;

/// What `serde_json::from_str` makes of a text: the document of the value it
/// returns, or `None` where it reports an error.
pub uninterp spec fn json_parsed(text: Seq<char>) -> Option<Doc>;

/// Calls `serde_json::from_str` at the type `serde_json::Value`. Believed, not
/// proved: the call returns for every text, and what it returns depends on
/// the text alone. Nothing else is claimed of the result: `json_parsed` is
/// its name.
#[verifier::external_body]
fn parse_json(text: &str) -> (parsed: Result<serde_json::Value, serde_json::Error>)
    ensures
        parsed matches Ok(value) ==> json_parsed(text@) == Some(json_doc(value)),
        parsed is Err ==> json_parsed(text@) is None,
{
    serde_json::from_str(text)
}

/// Believed of `serde_json::Value::as_str`: it returns the string of a
/// `Value::String`, and `None` for every other variant.
pub assume_specification<'a>[ serde_json::Value::as_str ](value: &'a serde_json::Value) -> (text:
    Option<&'a str>)
    ensures
        text matches Some(s) ==> json_doc(*value) == Doc::Text(s@),
        text is None ==> !(json_doc(*value) is Text),
;

/// Believed of `serde_json::Value::as_array`: it returns the vector of a
/// `Value::Array`, whose items are the items of the list, and `None` for
/// every other variant.
pub assume_specification<'a>[ serde_json::Value::as_array ](value: &'a serde_json::Value) -> (items:
    Option<&'a Vec<serde_json::Value>>)
    ensures
        items matches Some(v) ==> json_doc(*value) == Doc::List(
            Seq::new(v@.len(), |i: int| json_doc(v@[i])),
        ),
        items is None ==> !(json_doc(*value) is List),
;

/// Calls `serde_json::Map::iter` on the map of a `Value::Object` and collects
/// what it hands out. Believed, not proved: these are the entries of the
/// table, in the table's order; every other variant gives `None`.
#[verifier::external_body]
fn json_entries<'a>(value: &'a serde_json::Value) -> (entries: Option<
    Vec<(&'a String, &'a serde_json::Value)>,
>)
    ensures
        entries matches Some(es) ==> json_doc(*value) == Doc::Table(
            Seq::new(es@.len(), |i: int| (es@[i].0@, json_doc(*es@[i].1))),
        ),
        entries is None ==> !(json_doc(*value) is Table),
{
    match value {
        serde_json::Value::Object(object) => Some(object.iter().collect()),
        _ => None,
    }
}

/// Copies a `serde_json::Value` into a tree of the same document.
fn tree_of_json(value: &serde_json::Value) -> (tree: Tree)
    ensures
        tree@ == json_doc(*value),
    decreases json_doc(*value),
{
    if let Some(s) = value.as_str() {
        return Tree::Text(s.to_owned());
    }
    if let Some(items) = value.as_array() {
        let mut list: Vec<Tree> = Vec::new();
        let mut i: usize = 0;
        while i < items.len()
            invariant
                i <= items.len(),
                list@.len() == i,
                json_doc(*value) == Doc::List(Seq::new(items@.len(), |k: int| json_doc(items@[k]))),
                forall|k: int| 0 <= k < i ==> (#[trigger] list@[k])@ == json_doc(items@[k]),
            decreases items.len() - i,
        {
            assert(json_doc(*value)->List_0[i as int] == json_doc(items@[i as int]));
            let item = tree_of_json(&items[i]);
            list.push(item);
            i += 1;
        }
        let tree = Tree::List(list);
        assert(tree@->List_0 =~= json_doc(*value)->List_0);
        return tree;
    }
    if let Some(entries) = json_entries(value) {
        let mut table: Vec<(String, Tree)> = Vec::new();
        let mut i: usize = 0;
        while i < entries.len()
            invariant
                i <= entries.len(),
                table@.len() == i,
                json_doc(*value) == Doc::Table(
                    Seq::new(entries@.len(), |k: int| (entries@[k].0@, json_doc(*entries@[k].1))),
                ),
                forall|k: int|
                    0 <= k < i ==> (#[trigger] table@[k]).0@ == entries@[k].0@ && table@[k].1@
                        == json_doc(*entries@[k].1),
            decreases entries.len() - i,
        {
            assert(json_doc(*value)->Table_0[i as int].1 == json_doc(*entries@[i as int].1));
            let key: String = entries[i].0.clone();
            let item = tree_of_json(entries[i].1);
            table.push((key, item));
            i += 1;
        }
        let tree = Tree::Table(table);
        assert(tree@->Table_0 =~= json_doc(*value)->Table_0);
        return tree;
    }
    Tree::Other
}

/// Parses a JSON text. `None` where the text is no JSON.
pub fn read_json(text: &str) -> (tree: Option<Tree>)
    ensures
        tree matches Some(t) ==> json_parsed(text@) == Some(t@),
        tree is None ==> json_parsed(text@) is None,
{
    match parse_json(text) {
        Ok(value) => Some(tree_of_json(&value)),
        Err(_) => None,
    }
}

} // verus!

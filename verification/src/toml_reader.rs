//! Reading TOML text into a document tree, by way of `toml`.
//!
//! The parser and the values it returns are not verified. What is believed of
//! them is stated at the top of this file; the copy of a value into a tree is
//! proved against it.

use vstd::prelude::*;
use crate::document::{Doc, Tree};

verus! {

/// `toml::Value`. Nothing inside it is visible to the verifier.
#[verifier::external_type_specification]
#[verifier::external_body]
pub struct ExTomlValue(toml::Value);

/// `toml::de::Error`. Nothing inside it is visible to the verifier.
#[verifier::external_type_specification]
#[verifier::external_body]
pub struct ExTomlError(toml::de::Error);

/// The document that a `toml::Value` holds: its strings as text, its
/// arrays as lists, its tables as tables in the order in which the table
/// hands out its entries, and everything else as `Doc::Other`.
pub uninterp spec fn toml_doc(value: toml::Value) -> Doc;

/// What `toml::from_str` makes of a text: the document of the value it
/// returns, or `None` where it reports an error.
pub uninterp spec fn toml_parsed(text: Seq<char>) -> Option<Doc>;

/// Calls `toml::from_str` at the type `toml::Value`. Believed, not
/// proved: the call returns for every text, and what it returns depends on
/// the text alone. Nothing else is claimed of the result: `toml_parsed` is
/// its name.
#[verifier::external_body]
fn parse_toml(text: &str) -> (parsed: Result<toml::Value, toml::de::Error>)
    ensures
        parsed matches Ok(value) ==> toml_parsed(text@) == Some(toml_doc(value)),
        parsed is Err ==> toml_parsed(text@) is None,
{
    toml::from_str(text)
}

/// Believed of `toml::Value::as_str`: it returns the string of a
/// `Value::String`, and `None` for every other variant.
pub assume_specification<'a>[ toml::Value::as_str ](value: &'a toml::Value) -> (text:
    Option<&'a str>)
    ensures
        text matches Some(s) ==> toml_doc(*value) == Doc::Text(s@),
        text is None ==> !(toml_doc(*value) is Text),
;

/// Believed of `toml::Value::as_array`: it returns the vector of a
/// `Value::Array`, whose items are the items of the list, and `None` for
/// every other variant.
pub assume_specification<'a>[ toml::Value::as_array ](value: &'a toml::Value) -> (items:
    Option<&'a Vec<toml::Value>>)
    ensures
        items matches Some(v) ==> toml_doc(*value) == Doc::List(
            Seq::new(v@.len(), |i: int| toml_doc(v@[i])),
        ),
        items is None ==> !(toml_doc(*value) is List),
;

/// Calls `toml::map::Map::iter` on the map of a `Value::Table` and collects
/// what it hands out. Believed, not proved: these are the entries of the
/// table, in the table's order; every other variant gives `None`.
#[verifier::external_body]
fn toml_entries<'a>(value: &'a toml::Value) -> (entries: Option<
    Vec<(&'a String, &'a toml::Value)>,
>)
    ensures
        entries matches Some(es) ==> toml_doc(*value) == Doc::Table(
            Seq::new(es@.len(), |i: int| (es@[i].0@, toml_doc(*es@[i].1))),
        ),
        entries is None ==> !(toml_doc(*value) is Table),
{
    match value {
        toml::Value::Table(table) => Some(table.iter().collect()),
        _ => None,
    }
}

/// Copies a `toml::Value` into a tree of the same document.
fn tree_of_toml(value: &toml::Value) -> (tree: Tree)
    ensures
        tree@ == toml_doc(*value),
    decreases toml_doc(*value),
{
    if let Some(s) = value.as_str() {
        return Tree::Text(s.to_owned());
    }
    if let Some(items) = value.as_array() {
        let mut list: Vec<Tree> = Vec::new();
        let mut i: usize = 0;
        while i < items.len()
            invariant
                i <= items.len(),
                list@.len() == i,
                toml_doc(*value) == Doc::List(Seq::new(items@.len(), |k: int| toml_doc(items@[k]))),
                forall|k: int| 0 <= k < i ==> (#[trigger] list@[k])@ == toml_doc(items@[k]),
            decreases items.len() - i,
        {
            assert(toml_doc(*value)->List_0[i as int] == toml_doc(items@[i as int]));
            let item = tree_of_toml(&items[i]);
            list.push(item);
            i += 1;
        }
        let tree = Tree::List(list);
        assert(tree@->List_0 =~= toml_doc(*value)->List_0);
        return tree;
    }
    if let Some(entries) = toml_entries(value) {
        let mut table: Vec<(String, Tree)> = Vec::new();
        let mut i: usize = 0;
        while i < entries.len()
            invariant
                i <= entries.len(),
                table@.len() == i,
                toml_doc(*value) == Doc::Table(
                    Seq::new(entries@.len(), |k: int| (entries@[k].0@, toml_doc(*entries@[k].1))),
                ),
                forall|k: int|
                    0 <= k < i ==> (#[trigger] table@[k]).0@ == entries@[k].0@ && table@[k].1@
                        == toml_doc(*entries@[k].1),
            decreases entries.len() - i,
        {
            assert(toml_doc(*value)->Table_0[i as int].1 == toml_doc(*entries@[i as int].1));
            let key: String = entries[i].0.clone();
            let item = tree_of_toml(entries[i].1);
            table.push((key, item));
            i += 1;
        }
        let tree = Tree::Table(table);
        assert(tree@->Table_0 =~= toml_doc(*value)->Table_0);
        return tree;
    }
    Tree::Other
}

/// Parses a TOML text. `None` where the text is no TOML.
pub fn read_toml(text: &str) -> (tree: Option<Tree>)
    ensures
        tree matches Some(t) ==> toml_parsed(text@) == Some(t@),
        tree is None ==> toml_parsed(text@) is None,
{
    match parse_toml(text) {
        Ok(value) => Some(tree_of_toml(&value)),
        Err(_) => None,
    }
}

} // verus!

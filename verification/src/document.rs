//! The generic document tree that a parsed configuration file is held in.

use vstd::prelude::*;

verus! {

/// The mathematical value of a document.
pub enum Doc {
    /// A value that is neither text, list nor table.
    Other,
    Text(Seq<char>),
    List(Seq<Doc>),
    /// The entries of a table, in the order in which they were given.
    Table(Seq<(Seq<char>, Doc)>),
}

/// A parsed document, or a part of one.
#[derive(Debug, PartialEq, Eq)]
pub enum Tree {
    /// A value that is neither text, list nor table: a number, a boolean, a
    /// date, null. No field of the metadata is read from one.
    Other,
    Text(String),
    List(Vec<Tree>),
    /// The entries of a table. Where a key occurs twice, its last entry counts.
    Table(Vec<(String, Tree)>),
}

/// The document that a tree holds.
pub open spec fn tree_doc(tree: Tree) -> Doc
    decreases tree,
{
    match tree {
        Tree::Other => Doc::Other,
        Tree::Text(s) => Doc::Text(s@),
        Tree::List(items) => Doc::List(
            Seq::new(
                items@.len(),
                |i: int|
                    if 0 <= i < items@.len() {
                        tree_doc(items@[i])
                    } else {
                        Doc::Other
                    },
            ),
        ),
        Tree::Table(entries) => Doc::Table(
            Seq::new(
                entries@.len(),
                |i: int|
                    if 0 <= i < entries@.len() {
                        (entries@[i].0@, tree_doc(entries@[i].1))
                    } else {
                        (Seq::<char>::empty(), Doc::Other)
                    },
            ),
        ),
    }
}

impl View for Tree {
    type V = Doc;

    open spec fn view(&self) -> Doc {
        tree_doc(*self)
    }
}

/// The table that a list of entries stands for: each key that occurs, with
/// the value of its last entry.
pub open spec fn entries_map<V>(entries: Seq<(Seq<char>, V)>) -> Map<Seq<char>, V>
    decreases entries.len(),
{
    if entries.len() == 0 {
        Map::empty()
    } else {
        entries_map(entries.drop_last()).insert(entries.last().0, entries.last().1)
    }
}

/// Entries that do not have the key play no part in what the key stands for.
pub proof fn lemma_entries_map_tail<V>(entries: Seq<(Seq<char>, V)>, from: int, key: Seq<char>)
    requires
        0 <= from <= entries.len(),
        forall|i: int| from <= i < entries.len() ==> entries[i].0 != key,
    ensures
        entries_map(entries).contains_key(key) == entries_map(entries.take(from)).contains_key(
            key,
        ),
        entries_map(entries).contains_key(key) ==> entries_map(entries)[key] == entries_map(
            entries.take(from),
        )[key],
    decreases entries.len(),
{
    if from == entries.len() {
        assert(entries.take(from) =~= entries);
    } else {
        let shorter = entries.drop_last();
        assert(shorter.take(from) =~= entries.take(from));
        lemma_entries_map_tail(shorter, from, key);
    }
}

/// A key stands for something exactly where an entry has it.
pub proof fn lemma_entries_map_keys<V>(entries: Seq<(Seq<char>, V)>, key: Seq<char>)
    ensures
        entries_map(entries).contains_key(key) <==> exists|i: int|
            0 <= i < entries.len() && (#[trigger] entries[i]).0 == key,
    decreases entries.len(),
{
    if entries.len() > 0 {
        let shorter = entries.drop_last();
        lemma_entries_map_keys(shorter, key);
        if entries_map(entries).contains_key(key) {
            if entries.last().0 == key {
                assert(entries[entries.len() - 1].0 == key);
            } else {
                let i = choose|i: int| 0 <= i < shorter.len() && (#[trigger] shorter[i]).0 == key;
                assert(entries[i].0 == key);
            }
        } else {
            assert forall|i: int| 0 <= i < entries.len() implies (#[trigger] entries[i]).0
                != key by {
                if i < shorter.len() {
                    assert(shorter[i].0 == entries[i].0);
                }
            }
        }
    }
}

impl Doc {
    /// What a table holds under a key; `None` for a key that the table lacks
    /// and for a value that is no table.
    pub open spec fn field(self, key: Seq<char>) -> Option<Doc> {
        match self {
            Doc::Table(entries) => if entries_map(entries).contains_key(key) {
                Some(entries_map(entries)[key])
            } else {
                None
            },
            _ => None,
        }
    }

    /// What a table holds under a key, and `Doc::Other` where `field` finds
    /// nothing.
    pub open spec fn at(self, key: Seq<char>) -> Doc {
        match self.field(key) {
            Some(found) => found,
            None => Doc::Other,
        }
    }

    /// The text of a text value.
    pub open spec fn text(self) -> Option<Seq<char>> {
        match self {
            Doc::Text(s) => Some(s),
            _ => None,
        }
    }

    /// The text of a text value, and the empty text for any other value.
    pub open spec fn text_or_empty(self) -> Seq<char> {
        match self {
            Doc::Text(s) => s,
            _ => Seq::empty(),
        }
    }

    /// The items of a list, each as text; an item that is no text counts as
    /// the empty text.
    pub open spec fn texts(self) -> Option<Seq<Seq<char>>> {
        match self {
            Doc::List(items) => Some(Seq::new(items.len(), |i: int| items[i].text_or_empty())),
            _ => None,
        }
    }
}

/// The document of a tree that may be missing.
pub open spec fn doc_of(tree: Option<&Tree>) -> Doc {
    match tree {
        Some(t) => t@,
        None => Doc::Other,
    }
}

impl Tree {
    /// Looks a key up in a table.
    pub fn get(&self, key: &str) -> (found: Option<&Tree>)
        ensures
            found matches Some(t) ==> self@.field(key@) == Some(t@),
            found is None ==> self@.field(key@) is None,
    {
        match self {
            Tree::Table(entries) => {
                let wanted: String = key.to_owned();
                let ghost model = self@->Table_0;
                let mut i: usize = entries.len();
                while i > 0
                    invariant
                        i <= entries.len(),
                        wanted@ == key@,
                        self@ == Doc::Table(model),
                        model.len() == entries@.len(),
                        forall|k: int|
                            0 <= k < entries@.len() ==> (#[trigger] model[k]) == (
                                entries@[k].0@,
                                entries@[k].1@,
                            ),
                        forall|k: int| i <= k < entries@.len() ==> (#[trigger] model[k]).0 != key@,
                    decreases i,
                {
                    i -= 1;
                    if entries[i].0 == wanted {
                        proof {
                            lemma_entries_map_tail(model, i + 1, key@);
                            assert(model.take(i + 1).drop_last() =~= model.take(i as int));
                            assert(model.take(i + 1).last() == model[i as int]);
                        }
                        return Some(&entries[i].1);
                    }
                }
                proof {
                    lemma_entries_map_tail(model, 0, key@);
                    assert(model.take(0) =~= Seq::empty());
                }
                None
            },
            _ => None,
        }
    }

    /// Looks a key up in a table that may itself be missing.
    pub fn child<'a>(tree: Option<&'a Tree>, key: &str) -> (found: Option<&'a Tree>)
        ensures
            doc_of(found) == doc_of(tree).at(key@),
            found is Some <==> doc_of(tree).field(key@) is Some,
    {
        match tree {
            Some(t) => t.get(key),
            None => None,
        }
    }

    /// The text of a text value.
    pub fn as_text(&self) -> (text: Option<&String>)
        ensures
            text matches Some(s) ==> self@.text() == Some(s@),
            text is None ==> self@.text() is None,
    {
        match self {
            Tree::Text(s) => Some(s),
            _ => None,
        }
    }

    /// The text of a text value, and the empty text for any other value.
    pub fn text_or_empty(&self) -> (text: String)
        ensures
            text@ == self@.text_or_empty(),
    {
        match self {
            Tree::Text(s) => s.clone(),
            _ => String::new(),
        }
    }
}

} // verus!

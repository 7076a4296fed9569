//! A map from names to values that remembers the order in which the names
//! came.

use vstd::prelude::*;
use crate::document::{entries_map, lemma_entries_map_keys};
use crate::text::Item;

verus! {

/// No key occurs in two entries.
pub open spec fn distinct_keys<V>(entries: Seq<(Seq<char>, V)>) -> bool {
    forall|i: int, j: int| 0 <= i < j < entries.len() ==> entries[i].0 != entries[j].0
}

/// Where no key occurs twice, every entry is what its key stands for.
pub proof fn lemma_entries_map_values<V>(entries: Seq<(Seq<char>, V)>, i: int)
    requires
        distinct_keys(entries),
        0 <= i < entries.len(),
    ensures
        entries_map(entries).contains_key(entries[i].0),
        entries_map(entries)[entries[i].0] == entries[i].1,
    decreases entries.len(),
{
    if i < entries.len() - 1 {
        let shorter = entries.drop_last();
        assert(distinct_keys(shorter)) by {
            assert forall|a: int, b: int| 0 <= a < b < shorter.len() implies shorter[a].0
                != shorter[b].0 by {
                assert(entries[a].0 != entries[b].0);
            }
        }
        lemma_entries_map_values(shorter, i);
        assert(entries[i].0 != entries[entries.len() - 1].0);
    }
}

/// Where no key occurs twice, the table has as many keys as there are
/// entries.
pub proof fn lemma_entries_map_len<V>(entries: Seq<(Seq<char>, V)>)
    requires
        distinct_keys(entries),
    ensures
        entries_map(entries).dom().finite(),
        entries_map(entries).dom().len() == entries.len(),
    decreases entries.len(),
{
    if entries.len() > 0 {
        let shorter = entries.drop_last();
        assert(distinct_keys(shorter)) by {
            assert forall|a: int, b: int| 0 <= a < b < shorter.len() implies shorter[a].0
                != shorter[b].0 by {
                assert(entries[a].0 != entries[b].0);
            }
        }
        lemma_entries_map_len(shorter);
        lemma_entries_map_keys(shorter, entries.last().0);
        assert(!entries_map(shorter).contains_key(entries.last().0)) by {
            if entries_map(shorter).contains_key(entries.last().0) {
                let i = choose|i: int|
                    0 <= i < shorter.len() && (#[trigger] shorter[i]).0 == entries.last().0;
                assert(entries[i].0 != entries[entries.len() - 1].0);
            }
        }
        assert(entries_map(entries).dom() =~= entries_map(shorter).dom().insert(
            entries.last().0,
        ));
    }
}

/// A table is the one that a list without repeated keys stands for as soon as
/// it holds every entry of the list and no other key.
pub proof fn lemma_entries_map_is<V>(entries: Seq<(Seq<char>, V)>, table: Map<Seq<char>, V>)
    requires
        distinct_keys(entries),
        forall|i: int|
            0 <= i < entries.len() ==> table.contains_key((#[trigger] entries[i]).0) && table[entries[i].0]
                == entries[i].1,
        forall|key: Seq<char>| #[trigger]
            table.contains_key(key) ==> exists|i: int|
                0 <= i < entries.len() && (#[trigger] entries[i]).0 == key,
    ensures
        entries_map(entries) == table,
{
    assert forall|key: Seq<char>| #[trigger]
        entries_map(entries).contains_key(key) == table.contains_key(key) by {
        lemma_entries_map_keys(entries, key);
    }
    assert forall|key: Seq<char>| #[trigger]
        entries_map(entries).contains_key(key) implies entries_map(entries)[key]
        == table[key] by {
        lemma_entries_map_keys(entries, key);
        let i = choose|i: int| 0 <= i < entries.len() && (#[trigger] entries[i]).0 == key;
        lemma_entries_map_values(entries, i);
    }
    assert(entries_map(entries) =~= table);
}

/// Replacing the value of an entry, in a list without repeated keys, gives
/// the key that value and changes nothing else.
pub proof fn lemma_replaced<V>(entries: Seq<(Seq<char>, V)>, i: int, value: V)
    requires
        distinct_keys(entries),
        0 <= i < entries.len(),
    ensures
        distinct_keys(entries.update(i, (entries[i].0, value))),
        entries_map(entries.update(i, (entries[i].0, value))) == entries_map(entries).insert(
            entries[i].0,
            value,
        ),
{
    let key = entries[i].0;
    let after = entries.update(i, (key, value));
    let table = entries_map(entries).insert(key, value);
    assert(distinct_keys(after)) by {
        assert forall|a: int, b: int| 0 <= a < b < after.len() implies after[a].0 != after[b].0 by {
            assert(entries[a].0 != entries[b].0);
        }
    }
    assert forall|k: int| 0 <= k < after.len() implies table.contains_key(
        (#[trigger] after[k]).0,
    ) && table[after[k].0] == after[k].1 by {
        lemma_entries_map_values(entries, k);
        if k != i {
            if k < i {
                assert(entries[k].0 != entries[i].0);
            } else {
                assert(entries[i].0 != entries[k].0);
            }
        }
    }
    assert forall|name: Seq<char>| #[trigger] table.contains_key(name) implies exists|k: int|
        0 <= k < after.len() && (#[trigger] after[k]).0 == name by {
        if name == key {
            assert(after[i].0 == name);
        } else {
            lemma_entries_map_keys(entries, name);
            let k = choose|k: int| 0 <= k < entries.len() && (#[trigger] entries[k]).0 == name;
            assert(after[k].0 == name);
        }
    }
    lemma_entries_map_is(after, table);
}

/// Whether an entry has the key.
pub open spec fn has_key<V>(entries: Seq<(Seq<char>, V)>, key: Seq<char>) -> bool {
    exists|i: int| 0 <= i < entries.len() && (#[trigger] entries[i]).0 == key
}

/// The entries after a key was given a value: a key that an entry has keeps
/// its place and gets the value, a new key comes last.
pub open spec fn put<V>(entries: Seq<(Seq<char>, V)>, key: Seq<char>, value: V) -> Seq<
    (Seq<char>, V),
> {
    if has_key(entries, key) {
        Seq::new(
            entries.len(),
            |i: int|
                if entries[i].0 == key {
                    (key, value)
                } else {
                    entries[i]
                },
        )
    } else {
        entries.push((key, value))
    }
}

/// The entries of a map that was filled from a list of entries, one after
/// the other: each key once, at the place of its first entry and with the
/// value of its last.
pub open spec fn ordered<V>(entries: Seq<(Seq<char>, V)>) -> Seq<(Seq<char>, V)>
    decreases entries.len(),
{
    if entries.len() == 0 {
        Seq::empty()
    } else {
        put(ordered(entries.drop_last()), entries.last().0, entries.last().1)
    }
}

/// Giving a key a value leaves no key twice, and changes the table that the
/// entries stand for at that key alone.
pub proof fn lemma_put<V>(entries: Seq<(Seq<char>, V)>, key: Seq<char>, value: V)
    requires
        distinct_keys(entries),
    ensures
        distinct_keys(put(entries, key, value)),
        entries_map(put(entries, key, value)) == entries_map(entries).insert(key, value),
{
    if has_key(entries, key) {
        let i = choose|i: int| 0 <= i < entries.len() && (#[trigger] entries[i]).0 == key;
        assert(put(entries, key, value) =~= entries.update(i, (key, value))) by {
            assert forall|k: int| 0 <= k < entries.len() && k != i implies (#[trigger] entries[k]).0
                != key by {
                if k < i {
                    assert(entries[k].0 != entries[i].0);
                } else {
                    assert(entries[i].0 != entries[k].0);
                }
            }
        }
        lemma_replaced(entries, i, value);
    } else {
        let after = entries.push((key, value));
        assert(after.drop_last() =~= entries);
        assert(distinct_keys(after)) by {
            assert forall|a: int, b: int| 0 <= a < b < after.len() implies after[a].0
                != after[b].0 by {
                if b < entries.len() {
                    assert(entries[a].0 != entries[b].0);
                } else {
                    assert(entries[a].0 != key);
                }
            }
        }
    }
}

/// A map that was filled from a list of entries holds no key twice, and
/// stands for the same table as the list.
pub proof fn ordered_keeps_the_table<V>(entries: Seq<(Seq<char>, V)>)
    ensures
        distinct_keys(ordered(entries)),
        entries_map(ordered(entries)) == entries_map(entries),
    decreases entries.len(),
{
    if entries.len() > 0 {
        ordered_keeps_the_table(entries.drop_last());
        lemma_put(ordered(entries.drop_last()), entries.last().0, entries.last().1);
    }
}

/// Two lists without repeated keys, of the same length, stand for the same
/// table where every entry of the first is what its key stands for in the
/// second.
pub proof fn lemma_same_table<V>(first: Seq<(Seq<char>, V)>, second: Seq<(Seq<char>, V)>)
    requires
        distinct_keys(first),
        distinct_keys(second),
        first.len() == second.len(),
        forall|i: int|
            0 <= i < first.len() ==> entries_map(second).contains_key((#[trigger] first[i]).0)
                && entries_map(second)[first[i].0] == first[i].1,
    ensures
        entries_map(first) == entries_map(second),
{
    let a = entries_map(first);
    let b = entries_map(second);
    lemma_entries_map_len(first);
    lemma_entries_map_len(second);
    assert forall|key: Seq<char>| #[trigger] a.contains_key(key) implies b.contains_key(key)
        && b[key] == a[key] by {
        lemma_entries_map_keys(first, key);
        let k = choose|k: int| 0 <= k < first.len() && (#[trigger] first[k]).0 == key;
        lemma_entries_map_values(first, k);
    }
    assert(a.dom().subset_of(b.dom()));
    vstd::set_lib::lemma_subset_equality(a.dom(), b.dom());
    assert(a =~= b);
}

/// A list of entries, each taken by its view.
pub open spec fn keyed<V: View>(entries: Seq<(String, V)>) -> Seq<(Seq<char>, V::V)> {
    Seq::new(entries.len(), |i: int| (entries[i].0@, entries[i].1@))
}

/// A map from names to values. It holds each name once, and keeps its
/// entries in the order in which their names were first inserted. Two maps
/// are equal where they give the same names the same values, in whatever
/// order.
#[derive(Debug)]
pub struct OrderedMap<V: View> {
    entries: Vec<(String, V)>,
}

impl<V: View> View for OrderedMap<V> {
    type V = Seq<(Seq<char>, V::V)>;

    /// The entries in their order.
    closed spec fn view(&self) -> Seq<(Seq<char>, V::V)> {
        keyed(self.entries@)
    }
}

impl<V: View> OrderedMap<V> {
    #[verifier::type_invariant]
    spec fn no_key_twice(&self) -> bool {
        distinct_keys(self@)
    }

    /// What the map gives each of its names.
    pub open spec fn table(&self) -> Map<Seq<char>, V::V> {
        entries_map(self@)
    }

    /// The map without entries.
    pub fn new() -> (map: Self)
        ensures
            map@ == Seq::<(Seq<char>, V::V)>::empty(),
    {
        let map = OrderedMap { entries: Vec::new() };
        assert(map@ =~= Seq::empty());
        map
    }

    /// The number of names.
    pub fn len(&self) -> (n: usize)
        ensures
            n == self@.len(),
            n == self.table().dom().len(),
            distinct_keys(self@),
    {
        proof {
            use_type_invariant(self);
            lemma_entries_map_len(self@);
        }
        self.entries.len()
    }

    /// The entries in their order: each name of the map once, with its
    /// value.
    pub fn entries(&self) -> (entries: &Vec<(String, V)>)
        ensures
            keyed(entries@) == self@,
            distinct_keys(self@),
    {
        proof {
            use_type_invariant(self);
        }
        &self.entries
    }

    /// The value of a name.
    pub fn get(&self, key: &str) -> (found: Option<&V>)
        ensures
            found matches Some(value) ==> self.table().contains_key(key@) && self.table()[key@]
                == value@,
            found is None ==> !self.table().contains_key(key@),
    {
        proof {
            use_type_invariant(self);
        }
        let wanted: String = key.to_owned();
        let mut i: usize = 0;
        while i < self.entries.len()
            invariant
                i <= self.entries@.len(),
                wanted@ == key@,
                self@ == keyed(self.entries@),
                distinct_keys(self@),
                forall|k: int| 0 <= k < i ==> (#[trigger] self@[k]).0 != key@,
            decreases self.entries@.len() - i,
        {
            if self.entries[i].0 == wanted {
                proof {
                    lemma_entries_map_values(self@, i as int);
                }
                return Some(&self.entries[i].1);
            }
            i += 1;
        }
        proof {
            lemma_entries_map_keys(self@, key@);
        }
        None
    }

    /// Gives a name a value. A name that the map has keeps its place, a new
    /// one comes last.
    pub fn insert(&mut self, key: String, value: V)
        ensures
            final(self)@ == put(old(self)@, key@, value@),
            final(self).table() == old(self).table().insert(key@, value@),
    {
        proof {
            use_type_invariant(&*self);
        }
        let ghost before = self@;
        let mut i: usize = 0;
        while i < self.entries.len()
            invariant
                i <= self.entries@.len(),
                self@ == before,
                before == keyed(self.entries@),
                *self == *old(self),
                distinct_keys(before),
                forall|k: int| 0 <= k < i ==> (#[trigger] before[k]).0 != key@,
            decreases self.entries@.len() - i,
        {
            if self.entries[i].0 == key {
                let mut entries: Vec<(String, V)> = Vec::new();
                core::mem::swap(&mut self.entries, &mut entries);
                proof {
                    lemma_put(before, key@, value@);
                    assert(before[i as int].0 == key@);
                    assert forall|k: int| 0 <= k < before.len() && k != i implies (
                    #[trigger] before[k]).0 != key@ by {
                        if k < i {
                            assert(before[k].0 != before[i as int].0);
                        } else {
                            assert(before[i as int].0 != before[k].0);
                        }
                    }
                    assert(keyed(entries@.update(i as int, (key, value))) =~= put(
                        before,
                        key@,
                        value@,
                    ));
                }
                entries.set(i, (key, value));
                self.entries = entries;
                return ;
            }
            i += 1;
        }
        let mut entries: Vec<(String, V)> = Vec::new();
        core::mem::swap(&mut self.entries, &mut entries);
        proof {
            lemma_put(before, key@, value@);
            assert(!has_key(before, key@));
            assert(keyed(entries@.push((key, value))) =~= put(before, key@, value@));
        }
        entries.push((key, value));
        self.entries = entries;
    }
}

impl<V: Item> OrderedMap<V> {
    /// Whether two maps give the same names the same values, in whatever
    /// order.
    pub fn same_as(&self, other: &Self) -> (same: bool)
        ensures
            same == (self.table() == other.table()),
    {
        proof {
            use_type_invariant(self);
            use_type_invariant(other);
            lemma_entries_map_len(self@);
            lemma_entries_map_len(other@);
        }
        if self.entries.len() != other.entries.len() {
            return false;
        }
        let mut i: usize = 0;
        while i < self.entries.len()
            invariant
                i <= self.entries@.len(),
                self@ == keyed(self.entries@),
                distinct_keys(self@),
                forall|k: int|
                    0 <= k < i ==> other.table().contains_key((#[trigger] self@[k]).0)
                        && other.table()[self@[k].0] == self@[k].1,
            decreases self.entries@.len() - i,
        {
            proof {
                lemma_entries_map_values(self@, i as int);
            }
            match other.get(self.entries[i].0.as_str()) {
                Some(value) => {
                    if !self.entries[i].1.same_as(value) {
                        return false;
                    }
                },
                None => {
                    return false;
                },
            }
            i += 1;
        }
        proof {
            lemma_same_table(self@, other@);
        }
        true
    }

    /// A copy with the same entries in the same order.
    pub fn duplicate(&self) -> (copy: Self)
        ensures
            copy@ == self@,
    {
        proof {
            use_type_invariant(self);
        }
        let mut entries: Vec<(String, V)> = Vec::new();
        let mut i: usize = 0;
        while i < self.entries.len()
            invariant
                i <= self.entries@.len(),
                entries@.len() == i,
                forall|k: int|
                    0 <= k < i ==> (#[trigger] entries@[k]).0@ == self.entries@[k].0@
                        && entries@[k].1@ == self.entries@[k].1@,
            decreases self.entries@.len() - i,
        {
            entries.push((self.entries[i].0.clone(), self.entries[i].1.duplicate()));
            i += 1;
        }
        assert(keyed(entries@) =~= self@);
        OrderedMap { entries }
    }
}

impl<V: Item> PartialEq for OrderedMap<V> {
    fn eq(&self, other: &Self) -> (same: bool) {
        self.same_as(other)
    }
}

impl<V: Item> vstd::std_specs::cmp::PartialEqSpecImpl for OrderedMap<V> {
    open spec fn obeys_eq_spec() -> bool {
        true
    }

    open spec fn eq_spec(&self, other: &Self) -> bool {
        self.table() == other.table()
    }
}

impl<V: Item> Clone for OrderedMap<V> {
    fn clone(&self) -> (copy: Self)
        ensures
            copy@ == self@,
    {
        self.duplicate()
    }
}

} // verus!

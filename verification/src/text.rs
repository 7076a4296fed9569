//! Texts, optional texts and lists of texts: their views, and how they are
//! compared and copied.

use vstd::prelude::*;

verus! {

/// A value that is compared and copied by its view.
pub trait Item: View + Sized {
    /// Whether two values have the same view.
    fn same_as(&self, other: &Self) -> (same: bool)
        ensures
            same == (self@ == other@),
    ;

    /// A copy with the same view.
    fn duplicate(&self) -> (copy: Self)
        ensures
            copy@ == self@,
    ;
}

impl Item for String {
    fn same_as(&self, other: &Self) -> (same: bool) {
        *self == *other
    }

    fn duplicate(&self) -> (copy: Self) {
        self.clone()
    }
}

/// The view of a text that may be missing.
pub open spec fn text_view(text: Option<String>) -> Option<Seq<char>> {
    match text {
        Some(s) => Some(s@),
        None => None,
    }
}

/// The view of a list of texts.
pub open spec fn texts_view(texts: Seq<String>) -> Seq<Seq<char>> {
    Seq::new(texts.len(), |i: int| texts[i]@)
}

/// The view of a list of texts that may be missing.
pub open spec fn optional_texts_view(texts: Option<Vec<String>>) -> Option<Seq<Seq<char>>> {
    match texts {
        Some(list) => Some(texts_view(list@)),
        None => None,
    }
}

/// Whether two optional texts are both missing or both the same text.
pub fn same_optional_text(first: &Option<String>, second: &Option<String>) -> (same: bool)
    ensures
        same == (text_view(*first) == text_view(*second)),
{
    match (first, second) {
        (Some(a), Some(b)) => *a == *b,
        (None, None) => true,
        _ => false,
    }
}

/// Whether two lists hold the same texts in the same order.
pub fn same_texts(first: &Vec<String>, second: &Vec<String>) -> (same: bool)
    ensures
        same == (texts_view(first@) == texts_view(second@)),
{
    if first.len() != second.len() {
        assert(texts_view(first@).len() != texts_view(second@).len());
        return false;
    }
    let mut i: usize = 0;
    while i < first.len()
        invariant
            i <= first@.len(),
            first@.len() == second@.len(),
            forall|k: int| 0 <= k < i ==> (#[trigger] first@[k])@ == second@[k]@,
        decreases first@.len() - i,
    {
        if first[i] != second[i] {
            assert(texts_view(first@)[i as int] != texts_view(second@)[i as int]);
            return false;
        }
        i += 1;
    }
    assert(texts_view(first@) =~= texts_view(second@));
    true
}

/// Whether two optional lists are both missing or hold the same texts in the
/// same order.
pub fn same_optional_texts(first: &Option<Vec<String>>, second: &Option<Vec<String>>) -> (same:
    bool)
    ensures
        same == (optional_texts_view(*first) == optional_texts_view(*second)),
{
    match (first, second) {
        (Some(a), Some(b)) => same_texts(a, b),
        (None, None) => true,
        _ => false,
    }
}

/// A copy of an optional text.
pub fn copy_optional_text(text: &Option<String>) -> (copy: Option<String>)
    ensures
        text_view(copy) == text_view(*text),
{
    match text {
        Some(s) => Some(s.clone()),
        None => None,
    }
}

/// A copy of a list of texts.
pub fn copy_texts(texts: &Vec<String>) -> (copy: Vec<String>)
    ensures
        texts_view(copy@) == texts_view(texts@),
{
    let mut copy: Vec<String> = Vec::new();
    let mut i: usize = 0;
    while i < texts.len()
        invariant
            i <= texts@.len(),
            copy@.len() == i,
            forall|k: int| 0 <= k < i ==> (#[trigger] copy@[k])@ == texts@[k]@,
        decreases texts@.len() - i,
    {
        copy.push(texts[i].clone());
        i += 1;
    }
    assert(texts_view(copy@) =~= texts_view(texts@));
    copy
}

/// A copy of an optional list of texts.
pub fn copy_optional_texts(texts: &Option<Vec<String>>) -> (copy: Option<Vec<String>>)
    ensures
        optional_texts_view(copy) == optional_texts_view(*texts),
{
    match texts {
        Some(list) => Some(copy_texts(list)),
        None => None,
    }
}

} // verus!

//! The record that every configuration file is read into.

use vstd::prelude::*;
use crate::document::entries_map;
use crate::ordered_map::OrderedMap;
use crate::text::{
    copy_optional_text, copy_optional_texts, optional_texts_view, same_optional_text,
    same_optional_texts, text_view, Item,
};

verus! {

/// What is known of one dependency.
#[derive(Debug)]
pub struct DependencyDetails {
    pub version: Option<String>,
    pub url: Option<String>,
}

/// The mathematical value of `DependencyDetails`.
pub struct DetailsView {
    pub version: Option<Seq<char>>,
    pub url: Option<Seq<char>>,
}

impl View for DependencyDetails {
    type V = DetailsView;

    open spec fn view(&self) -> DetailsView {
        DetailsView { version: text_view(self.version), url: text_view(self.url) }
    }
}

impl Item for DependencyDetails {
    fn same_as(&self, other: &Self) -> (same: bool) {
        same_optional_text(&self.version, &other.version) && same_optional_text(
            &self.url,
            &other.url,
        )
    }

    fn duplicate(&self) -> (copy: Self) {
        DependencyDetails {
            version: copy_optional_text(&self.version),
            url: copy_optional_text(&self.url),
        }
    }
}

/// The view of a value that may be missing.
pub open spec fn optional_view<T: View>(value: Option<T>) -> Option<T::V> {
    match value {
        Some(v) => Some(v@),
        None => None,
    }
}

/// Whether two lists of entries give the same names the same values, in
/// whatever order.
pub open spec fn same_table<V>(first: Seq<(Seq<char>, V)>, second: Seq<(Seq<char>, V)>) -> bool {
    entries_map(first) == entries_map(second)
}

/// Whether two optional lists of entries are both missing or give the same
/// names the same values.
pub open spec fn same_optional_table<V>(
    first: Option<Seq<(Seq<char>, V)>>,
    second: Option<Seq<(Seq<char>, V)>>,
) -> bool {
    match (first, second) {
        (Some(a), Some(b)) => same_table(a, b),
        (None, None) => true,
        _ => false,
    }
}

/// Whether two optional maps are both missing or equal as maps.
pub fn same_optional_map<V: Item>(first: &Option<OrderedMap<V>>, second: &Option<OrderedMap<V>>) -> (same:
    bool)
    ensures
        same == same_optional_table(optional_view(*first), optional_view(*second)),
{
    match (first, second) {
        (Some(a), Some(b)) => a.same_as(b),
        (None, None) => true,
        _ => false,
    }
}

/// A copy of an optional map, with the same entries in the same order.
pub fn copy_optional_map<V: Item>(map: &Option<OrderedMap<V>>) -> (copy: Option<OrderedMap<V>>)
    ensures
        optional_view(copy) == optional_view(*map),
{
    match map {
        Some(m) => Some(m.duplicate()),
        None => None,
    }
}

/// The dependencies of a project, in one of two shapes. Which one is fixed by
/// the kind of file they were read from.
#[derive(Debug)]
pub enum Dependencies {
    /// Each dependency with its version requirement.
    Simple(OrderedMap<String>),
    /// Each dependency with its details.
    Detailed(OrderedMap<DependencyDetails>),
}

/// The mathematical value of `Dependencies`: the entries in their order.
pub enum DependenciesView {
    Simple(Seq<(Seq<char>, Seq<char>)>),
    Detailed(Seq<(Seq<char>, DetailsView)>),
}

impl DependenciesView {
    /// Whether two values have the same shape and give the same names the
    /// same values, in whatever order.
    pub open spec fn same(self, other: DependenciesView) -> bool {
        match (self, other) {
            (DependenciesView::Simple(a), DependenciesView::Simple(b)) => same_table(a, b),
            (DependenciesView::Detailed(a), DependenciesView::Detailed(b)) => same_table(a, b),
            _ => false,
        }
    }
}

/// Whether two optional dependencies are both missing or the same.
pub open spec fn same_optional_dependencies(
    first: Option<DependenciesView>,
    second: Option<DependenciesView>,
) -> bool {
    match (first, second) {
        (Some(a), Some(b)) => a.same(b),
        (None, None) => true,
        _ => false,
    }
}

impl View for Dependencies {
    type V = DependenciesView;

    open spec fn view(&self) -> DependenciesView {
        match self {
            Dependencies::Simple(map) => DependenciesView::Simple(map@),
            Dependencies::Detailed(map) => DependenciesView::Detailed(map@),
        }
    }
}

impl Dependencies {
    /// Whether two values have the same shape and give the same names the
    /// same values, in whatever order.
    pub fn same_as(&self, other: &Self) -> (same: bool)
        ensures
            same == self@.same(other@),
    {
        match (self, other) {
            (Dependencies::Simple(a), Dependencies::Simple(b)) => a.same_as(b),
            (Dependencies::Detailed(a), Dependencies::Detailed(b)) => a.same_as(b),
            _ => false,
        }
    }

    /// A copy with the same entries in the same order.
    pub fn duplicate(&self) -> (copy: Self)
        ensures
            copy@ == self@,
    {
        match self {
            Dependencies::Simple(map) => Dependencies::Simple(map.duplicate()),
            Dependencies::Detailed(map) => Dependencies::Detailed(map.duplicate()),
        }
    }
}

/// Whether two optional dependencies are both missing or the same.
pub fn same_dependencies(first: &Option<Dependencies>, second: &Option<Dependencies>) -> (same:
    bool)
    ensures
        same == same_optional_dependencies(optional_view(*first), optional_view(*second)),
{
    match (first, second) {
        (Some(a), Some(b)) => a.same_as(b),
        (None, None) => true,
        _ => false,
    }
}

/// A copy of optional dependencies.
pub fn copy_dependencies(dependencies: &Option<Dependencies>) -> (copy: Option<Dependencies>)
    ensures
        optional_view(copy) == optional_view(*dependencies),
{
    match dependencies {
        Some(d) => Some(d.duplicate()),
        None => None,
    }
}

/// The metadata of a project, as one configuration file gives it.
#[derive(Debug)]
pub struct ProjectMetadata {
    pub name: String,
    pub version: String,
    pub description: Option<String>,
    pub authors: Option<Vec<String>>,
    pub license: Option<String>,
    pub keywords: Option<Vec<String>>,
    pub dependencies: Option<Dependencies>,
    pub scripts: Option<OrderedMap<String>>,
}

/// The mathematical value of `ProjectMetadata`. Dependencies and scripts are
/// the entries in their order.
pub struct MetadataView {
    pub name: Seq<char>,
    pub version: Seq<char>,
    pub description: Option<Seq<char>>,
    pub authors: Option<Seq<Seq<char>>>,
    pub license: Option<Seq<char>>,
    pub keywords: Option<Seq<Seq<char>>>,
    pub dependencies: Option<DependenciesView>,
    pub scripts: Option<Seq<(Seq<char>, Seq<char>)>>,
}

impl MetadataView {
    /// Whether two records are equal: they agree in every field, lists in
    /// their order, dependencies and scripts in whatever order.
    pub open spec fn same(self, other: MetadataView) -> bool {
        &&& self.name == other.name
        &&& self.version == other.version
        &&& self.description == other.description
        &&& self.authors == other.authors
        &&& self.license == other.license
        &&& self.keywords == other.keywords
        &&& same_optional_dependencies(self.dependencies, other.dependencies)
        &&& same_optional_table(self.scripts, other.scripts)
    }
}

impl View for ProjectMetadata {
    type V = MetadataView;

    open spec fn view(&self) -> MetadataView {
        MetadataView {
            name: self.name@,
            version: self.version@,
            description: text_view(self.description),
            authors: optional_texts_view(self.authors),
            license: text_view(self.license),
            keywords: optional_texts_view(self.keywords),
            dependencies: optional_view(self.dependencies),
            scripts: optional_view(self.scripts),
        }
    }
}

impl ProjectMetadata {
    /// Whether two records are equal: they agree in every field, lists in
    /// their order, dependencies and scripts in whatever order.
    pub fn same_as(&self, other: &Self) -> (same: bool)
        ensures
            same == self@.same(other@),
    {
        self.name == other.name && self.version == other.version && same_optional_text(
            &self.description,
            &other.description,
        ) && same_optional_texts(&self.authors, &other.authors) && same_optional_text(
            &self.license,
            &other.license,
        ) && same_optional_texts(&self.keywords, &other.keywords) && same_dependencies(
            &self.dependencies,
            &other.dependencies,
        ) && same_optional_map(&self.scripts, &other.scripts)
    }

    /// A copy that agrees in every field, and in the order of dependencies
    /// and scripts.
    pub fn duplicate(&self) -> (copy: Self)
        ensures
            copy@ == self@,
    {
        ProjectMetadata {
            name: self.name.clone(),
            version: self.version.clone(),
            description: copy_optional_text(&self.description),
            authors: copy_optional_texts(&self.authors),
            license: copy_optional_text(&self.license),
            keywords: copy_optional_texts(&self.keywords),
            dependencies: copy_dependencies(&self.dependencies),
            scripts: copy_optional_map(&self.scripts),
        }
    }
}

impl PartialEq for DependencyDetails {
    fn eq(&self, other: &Self) -> (same: bool) {
        self.same_as(other)
    }
}

impl vstd::std_specs::cmp::PartialEqSpecImpl for DependencyDetails {
    open spec fn obeys_eq_spec() -> bool {
        true
    }

    open spec fn eq_spec(&self, other: &Self) -> bool {
        self@ == other@
    }
}

impl Clone for DependencyDetails {
    fn clone(&self) -> (copy: Self)
        ensures
            copy@ == self@,
    {
        self.duplicate()
    }
}

impl PartialEq for Dependencies {
    fn eq(&self, other: &Self) -> (same: bool) {
        self.same_as(other)
    }
}

impl vstd::std_specs::cmp::PartialEqSpecImpl for Dependencies {
    open spec fn obeys_eq_spec() -> bool {
        true
    }

    open spec fn eq_spec(&self, other: &Self) -> bool {
        self@.same(other@)
    }
}

impl Clone for Dependencies {
    fn clone(&self) -> (copy: Self)
        ensures
            copy@ == self@,
    {
        self.duplicate()
    }
}

impl PartialEq for ProjectMetadata {
    fn eq(&self, other: &Self) -> (same: bool) {
        self.same_as(other)
    }
}

impl vstd::std_specs::cmp::PartialEqSpecImpl for ProjectMetadata {
    open spec fn obeys_eq_spec() -> bool {
        true
    }

    open spec fn eq_spec(&self, other: &Self) -> bool {
        self@.same(other@)
    }
}

impl Clone for ProjectMetadata {
    fn clone(&self) -> (copy: Self)
        ensures
            copy@ == self@,
    {
        self.duplicate()
    }
}

} // verus!

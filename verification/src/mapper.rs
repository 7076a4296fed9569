//! From the document of a configuration file to the metadata it gives: one
//! mapping for each kind of file.

use vstd::prelude::*;
use crate::document::{doc_of, Doc, Tree};
use crate::metadata::{
    optional_view, Dependencies, DependenciesView, DependencyDetails, DetailsView, MetadataView,
    ProjectMetadata,
};
use crate::ordered_map::{ordered, OrderedMap};
use crate::text::{optional_texts_view, text_view, texts_view};

verus! {

/// A map of texts, filled from the entries of a table in their order: each
/// entry with its value as text, a value that is no text as the empty text.
/// `None` for what is no table.
pub open spec fn simple_map(doc: Doc) -> Option<Seq<(Seq<char>, Seq<char>)>> {
    match doc {
        Doc::Table(entries) => Some(
            ordered(
                Seq::new(entries.len(), |i: int| (entries[i].0, entries[i].1.text_or_empty())),
            ),
        ),
        _ => None,
    }
}

/// What a dependency's own value says of it: its `version` where that is a
/// text, and never a URL.
pub open spec fn details_of(doc: Doc) -> DetailsView {
    DetailsView { version: doc.at("version"@).text(), url: None }
}

/// A map of dependency details, filled from the entries of a table in their
/// order: each entry with the details that its value gives. `None` for what
/// is no table.
pub open spec fn detailed_map(doc: Doc) -> Option<Seq<(Seq<char>, DetailsView)>> {
    match doc {
        Doc::Table(entries) => Some(
            ordered(Seq::new(entries.len(), |i: int| (entries[i].0, details_of(entries[i].1)))),
        ),
        _ => None,
    }
}

/// Dependencies in the simple shape.
pub open spec fn simple_dependencies(doc: Doc) -> Option<DependenciesView> {
    match simple_map(doc) {
        Some(map) => Some(DependenciesView::Simple(map)),
        None => None,
    }
}

/// Dependencies in the detailed shape.
pub open spec fn detailed_dependencies(doc: Doc) -> Option<DependenciesView> {
    match detailed_map(doc) {
        Some(map) => Some(DependenciesView::Detailed(map)),
        None => None,
    }
}

/// A single author as a list of one.
pub open spec fn single_author(doc: Doc) -> Option<Seq<Seq<char>>> {
    match doc.text() {
        Some(author) => Some(seq![author]),
        None => None,
    }
}

/// The metadata that the document of a `package.json` gives.
pub open spec fn package_json_metadata(doc: Doc) -> MetadataView {
    MetadataView {
        name: doc.at("name"@).text_or_empty(),
        version: doc.at("version"@).text_or_empty(),
        description: doc.at("description"@).text(),
        authors: single_author(doc.at("author"@)),
        license: doc.at("license"@).text(),
        keywords: doc.at("keywords"@).texts(),
        dependencies: simple_dependencies(doc.at("dependencies"@)),
        scripts: simple_map(doc.at("scripts"@)),
    }
}

/// The metadata that the document of a `deno.json` gives. Such a file names
/// no authors, and calls its dependencies `imports`.
pub open spec fn deno_json_metadata(doc: Doc) -> MetadataView {
    MetadataView {
        name: doc.at("name"@).text_or_empty(),
        version: doc.at("version"@).text_or_empty(),
        description: doc.at("description"@).text(),
        authors: None,
        license: doc.at("license"@).text(),
        keywords: doc.at("keywords"@).texts(),
        dependencies: simple_dependencies(doc.at("imports"@)),
        scripts: simple_map(doc.at("scripts"@)),
    }
}

/// The metadata that a TOML manifest gives: everything but the dependencies
/// from one section of it. Such a file has no scripts.
pub open spec fn manifest_metadata(section: Doc, dependencies: Doc) -> MetadataView {
    MetadataView {
        name: section.at("name"@).text_or_empty(),
        version: section.at("version"@).text_or_empty(),
        description: section.at("description"@).text(),
        authors: section.at("authors"@).texts(),
        license: section.at("license"@).text(),
        keywords: section.at("keywords"@).texts(),
        dependencies: detailed_dependencies(dependencies),
        scripts: None,
    }
}

/// The metadata that the document of a `Cargo.toml` gives: the section
/// `package`, and the dependencies beside it.
pub open spec fn cargo_toml_metadata(doc: Doc) -> MetadataView {
    manifest_metadata(doc.at("package"@), doc.at("dependencies"@))
}

/// The metadata that the document of a `pyproject.toml` gives: the section
/// `project`, and the dependencies inside it.
pub open spec fn pyproject_toml_metadata(doc: Doc) -> MetadataView {
    manifest_metadata(doc.at("project"@), doc.at("project"@).at("dependencies"@))
}

/// The text under a key.
fn text_at(tree: Option<&Tree>, key: &str) -> (text: Option<String>)
    ensures
        text_view(text) == doc_of(tree).at(key@).text(),
{
    match Tree::child(tree, key) {
        Some(found) => match found.as_text() {
            Some(s) => Some(s.clone()),
            None => None,
        },
        None => None,
    }
}

/// The text under a key, and the empty text where there is none.
fn text_or_empty_at(tree: Option<&Tree>, key: &str) -> (text: String)
    ensures
        text@ == doc_of(tree).at(key@).text_or_empty(),
{
    match Tree::child(tree, key) {
        Some(found) => found.text_or_empty(),
        None => String::new(),
    }
}

/// The list of texts under a key.
fn texts_at(tree: Option<&Tree>, key: &str) -> (texts: Option<Vec<String>>)
    ensures
        optional_texts_view(texts) == doc_of(tree).at(key@).texts(),
{
    match Tree::child(tree, key) {
        Some(Tree::List(items)) => {
            let mut texts: Vec<String> = Vec::new();
            let mut i: usize = 0;
            while i < items.len()
                invariant
                    i <= items@.len(),
                    texts@.len() == i,
                    forall|k: int|
                        0 <= k < i ==> (#[trigger] texts@[k])@ == items@[k]@.text_or_empty(),
                decreases items@.len() - i,
            {
                texts.push(items[i].text_or_empty());
                i += 1;
            }
            assert(texts_view(texts@) =~= doc_of(tree).at(key@).texts()->Some_0);
            Some(texts)
        },
        _ => None,
    }
}

/// The table of texts under a key.
fn simple_map_at(tree: Option<&Tree>, key: &str) -> (map: Option<OrderedMap<String>>)
    ensures
        optional_view(map) == simple_map(doc_of(tree).at(key@)),
{
    match Tree::child(tree, key) {
        Some(Tree::Table(entries)) => {
            let ghost model = doc_of(tree).at(key@)->Table_0;
            let ghost texts = Seq::new(
                model.len(),
                |i: int| (model[i].0, model[i].1.text_or_empty()),
            );
            let mut map: OrderedMap<String> = OrderedMap::new();
            let mut i: usize = 0;
            assert(texts.take(0) =~= Seq::empty());
            while i < entries.len()
                invariant
                    i <= entries@.len(),
                    model.len() == entries@.len(),
                    texts.len() == entries@.len(),
                    forall|k: int|
                        0 <= k < entries@.len() ==> (#[trigger] texts[k]) == (
                            entries@[k].0@,
                            entries@[k].1@.text_or_empty(),
                        ),
                    map@ == ordered(texts.take(i as int)),
                decreases entries@.len() - i,
            {
                proof {
                    assert(texts.take(i + 1).drop_last() =~= texts.take(i as int));
                }
                map.insert(entries[i].0.clone(), entries[i].1.text_or_empty());
                i += 1;
            }
            assert(texts.take(i as int) =~= texts);
            Some(map)
        },
        _ => None,
    }
}

/// What a dependency's own value says of it.
fn details_at(tree: &Tree) -> (details: DependencyDetails)
    ensures
        details@ == details_of(tree@),
{
    DependencyDetails { version: text_at(Some(tree), "version"), url: None }
}

/// The table of dependency details under a key.
fn detailed_map_at(tree: Option<&Tree>, key: &str) -> (map: Option<OrderedMap<DependencyDetails>>)
    ensures
        optional_view(map) == detailed_map(doc_of(tree).at(key@)),
{
    match Tree::child(tree, key) {
        Some(Tree::Table(entries)) => {
            let ghost model = doc_of(tree).at(key@)->Table_0;
            let ghost details = Seq::new(model.len(), |i: int| (model[i].0, details_of(model[i].1)));
            let mut map: OrderedMap<DependencyDetails> = OrderedMap::new();
            let mut i: usize = 0;
            assert(details.take(0) =~= Seq::empty());
            while i < entries.len()
                invariant
                    i <= entries@.len(),
                    model.len() == entries@.len(),
                    details.len() == entries@.len(),
                    forall|k: int|
                        0 <= k < entries@.len() ==> (#[trigger] details[k]) == (
                            entries@[k].0@,
                            details_of(entries@[k].1@),
                        ),
                    map@ == ordered(details.take(i as int)),
                decreases entries@.len() - i,
            {
                proof {
                    assert(details.take(i + 1).drop_last() =~= details.take(i as int));
                }
                map.insert(entries[i].0.clone(), details_at(&entries[i].1));
                i += 1;
            }
            assert(details.take(i as int) =~= details);
            Some(map)
        },
        _ => None,
    }
}

/// Dependencies in the simple shape, from the table under a key.
fn simple_dependencies_at(tree: Option<&Tree>, key: &str) -> (dependencies: Option<Dependencies>)
    ensures
        optional_view(dependencies) == simple_dependencies(doc_of(tree).at(key@)),
{
    match simple_map_at(tree, key) {
        Some(map) => Some(Dependencies::Simple(map)),
        None => None,
    }
}

/// Dependencies in the detailed shape, from the table under a key.
fn detailed_dependencies_at(tree: Option<&Tree>, key: &str) -> (dependencies: Option<Dependencies>)
    ensures
        optional_view(dependencies) == detailed_dependencies(doc_of(tree).at(key@)),
{
    match detailed_map_at(tree, key) {
        Some(map) => Some(Dependencies::Detailed(map)),
        None => None,
    }
}

/// The metadata of a TOML manifest, from one section of it and from the
/// table that holds a table `dependencies`.
fn from_manifest(section: Option<&Tree>, around_dependencies: Option<&Tree>) -> (metadata:
    ProjectMetadata)
    ensures
        metadata@ == manifest_metadata(
            doc_of(section),
            doc_of(around_dependencies).at("dependencies"@),
        ),
{
    ProjectMetadata {
        name: text_or_empty_at(section, "name"),
        version: text_or_empty_at(section, "version"),
        description: text_at(section, "description"),
        authors: texts_at(section, "authors"),
        license: text_at(section, "license"),
        keywords: texts_at(section, "keywords"),
        dependencies: detailed_dependencies_at(around_dependencies, "dependencies"),
        scripts: None,
    }
}

impl ProjectMetadata {
    /// Reads the metadata out of the document of a `package.json`. A field
    /// that is missing, or of another type than expected, is left out, or
    /// left empty where the record must have it.
    pub fn from_package_json(tree: &Tree) -> (metadata: ProjectMetadata)
        ensures
            metadata@ == package_json_metadata(tree@),
    {
        let root = Some(tree);
        let authors = match text_at(root, "author") {
            Some(author) => {
                let mut list: Vec<String> = Vec::new();
                list.push(author);
                assert(texts_view(list@) =~= seq![author@]);
                Some(list)
            },
            None => None,
        };
        ProjectMetadata {
            name: text_or_empty_at(root, "name"),
            version: text_or_empty_at(root, "version"),
            description: text_at(root, "description"),
            authors,
            license: text_at(root, "license"),
            keywords: texts_at(root, "keywords"),
            dependencies: simple_dependencies_at(root, "dependencies"),
            scripts: simple_map_at(root, "scripts"),
        }
    }

    /// Reads the metadata out of the document of a `deno.json`.
    pub fn from_deno_json(tree: &Tree) -> (metadata: ProjectMetadata)
        ensures
            metadata@ == deno_json_metadata(tree@),
    {
        let root = Some(tree);
        ProjectMetadata {
            name: text_or_empty_at(root, "name"),
            version: text_or_empty_at(root, "version"),
            description: text_at(root, "description"),
            authors: None,
            license: text_at(root, "license"),
            keywords: texts_at(root, "keywords"),
            dependencies: simple_dependencies_at(root, "imports"),
            scripts: simple_map_at(root, "scripts"),
        }
    }

    /// Reads the metadata out of the document of a `Cargo.toml`.
    pub fn from_cargo_toml(tree: &Tree) -> (metadata: ProjectMetadata)
        ensures
            metadata@ == cargo_toml_metadata(tree@),
    {
        from_manifest(Tree::child(Some(tree), "package"), Some(tree))
    }

    /// Reads the metadata out of the document of a `pyproject.toml`.
    pub fn from_pyproject_toml(tree: &Tree) -> (metadata: ProjectMetadata)
        ensures
            metadata@ == pyproject_toml_metadata(tree@),
    {
        let project = Tree::child(Some(tree), "project");
        from_manifest(project, project)
    }
}

} // verus!

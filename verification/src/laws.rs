//! What holds of reading, loading and comparing, whatever the files hold.

use vstd::prelude::*;
use crate::checker::{compared, differences, discrepancies, DifferenceView, DiscrepancyView};
use crate::config::{
    ConfigFile, ConfigKind, ErrorView, FileRead, FileReadView, MetadataError, SourceView,
};
use crate::document::{entries_map, lemma_entries_map_keys, Doc};
use crate::loader::{
    batch, collected, extraction, is_fatal, lemma_collected_fails, metadata_of, outcome_view,
    parse_error, parsed_as, source_of, LoadedView,
};
use crate::mapper::manifest_metadata;
use crate::metadata::{MetadataView, ProjectMetadata};
use crate::ordered_map::{distinct_keys, lemma_entries_map_values};

verus! {

/// A table with a name and a version, and nothing else.
pub open spec fn name_and_version(name: Seq<char>, version: Seq<char>) -> Doc {
    Doc::Table(seq![("name"@, Doc::Text(name)), ("version"@, Doc::Text(version))])
}

/// The smallest document of a kind that gives a name and a version. The two
/// JSON kinds hold them at the top, `Cargo.toml` in its section `package`,
/// `pyproject.toml` in its section `project`.
pub open spec fn minimal_document(kind: ConfigKind, name: Seq<char>, version: Seq<char>) -> Doc {
    match kind {
        ConfigKind::PackageJson | ConfigKind::DenoJson => name_and_version(name, version),
        ConfigKind::CargoToml => Doc::Table(seq![("package"@, name_and_version(name, version))]),
        ConfigKind::PyprojectToml => Doc::Table(
            seq![("project"@, name_and_version(name, version))],
        ),
    }
}

/// The record with a name and a version, and nothing else.
pub open spec fn minimal_metadata(name: Seq<char>, version: Seq<char>) -> MetadataView {
    MetadataView {
        name,
        version,
        description: None,
        authors: None,
        license: None,
        keywords: None,
        dependencies: None,
        scripts: None,
    }
}

/// What a table of one entry holds under a key.
proof fn lemma_table_of_one(key: Seq<char>, value: Doc, wanted: Seq<char>)
    ensures
        Doc::Table(seq![(key, value)]).at(wanted) == if wanted == key {
            value
        } else {
            Doc::Other
        },
{
    let entries = seq![(key, value)];
    assert(distinct_keys(entries));
    lemma_entries_map_values(entries, 0);
    lemma_entries_map_keys(entries, wanted);
}

/// What a table of a name and a version holds under a key.
proof fn lemma_name_and_version(name: Seq<char>, version: Seq<char>, wanted: Seq<char>)
    ensures
        name_and_version(name, version).at(wanted) == if wanted == "name"@ {
            Doc::Text(name)
        } else if wanted == "version"@ {
            Doc::Text(version)
        } else {
            Doc::Other
        },
{
    reveal_strlit("name");
    reveal_strlit("version");
    let entries = seq![("name"@, Doc::Text(name)), ("version"@, Doc::Text(version))];
    assert(entries[0].0.len() == 4 && entries[1].0.len() == 7);
    assert(distinct_keys(entries));
    lemma_entries_map_values(entries, 0);
    lemma_entries_map_values(entries, 1);
    lemma_entries_map_keys(entries, wanted);
}

/// The keys that the mappings look up are ten different texts, and differ
/// from the names of the two sections.
proof fn lemma_keys_differ()
    ensures
        "name"@.len() == 4,
        "version"@.len() == 7 && "version"@[0] == 'v',
        "description"@.len() == 11,
        "author"@.len() == 6,
        "authors"@.len() == 7 && "authors"@[0] == 'a',
        "license"@.len() == 7 && "license"@[0] == 'l',
        "keywords"@.len() == 8,
        "dependencies"@.len() == 12,
        "imports"@.len() == 7 && "imports"@[0] == 'i',
        "scripts"@.len() == 7 && "scripts"@[0] == 's',
        "package"@.len() == 7 && "package"@[0] == 'p' && "package"@[1] == 'a',
        "project"@.len() == 7 && "project"@[0] == 'p' && "project"@[1] == 'r',
{
    reveal_strlit("name");
    reveal_strlit("version");
    reveal_strlit("description");
    reveal_strlit("author");
    reveal_strlit("authors");
    reveal_strlit("license");
    reveal_strlit("keywords");
    reveal_strlit("dependencies");
    reveal_strlit("imports");
    reveal_strlit("scripts");
    reveal_strlit("package");
    reveal_strlit("project");
}

/// A document that holds a name and a version and nothing else gives, for
/// each of the four kinds, a record with that name and that version and none
/// of the optional fields.
pub proof fn minimal_document_gives_minimal_metadata(
    kind: ConfigKind,
    name: Seq<char>,
    version: Seq<char>,
)
    ensures
        metadata_of(kind, minimal_document(kind, name, version)) == minimal_metadata(
            name,
            version,
        ),
{
    lemma_keys_differ();
    let inner = name_and_version(name, version);
    lemma_name_and_version(name, version, "name"@);
    lemma_name_and_version(name, version, "version"@);
    lemma_name_and_version(name, version, "description"@);
    lemma_name_and_version(name, version, "author"@);
    lemma_name_and_version(name, version, "authors"@);
    lemma_name_and_version(name, version, "license"@);
    lemma_name_and_version(name, version, "keywords"@);
    lemma_name_and_version(name, version, "dependencies"@);
    lemma_name_and_version(name, version, "imports"@);
    lemma_name_and_version(name, version, "scripts"@);
    match kind {
        ConfigKind::PackageJson => {},
        ConfigKind::DenoJson => {},
        ConfigKind::CargoToml => {
            lemma_table_of_one("package"@, inner, "package"@);
            lemma_table_of_one("package"@, inner, "dependencies"@);
        },
        ConfigKind::PyprojectToml => {
            lemma_table_of_one("project"@, inner, "project"@);
        },
    }
}

/// An entry put into a list of entries, at whatever place, changes nothing
/// of what any other key stands for.
pub proof fn lemma_entry_added<V>(
    entries: Seq<(Seq<char>, V)>,
    at: int,
    key: Seq<char>,
    value: V,
    other: Seq<char>,
)
    requires
        0 <= at <= entries.len(),
        other != key,
    ensures
        entries_map(entries.insert(at, (key, value))).contains_key(other) == entries_map(
            entries,
        ).contains_key(other),
        entries_map(entries).contains_key(other) ==> entries_map(
            entries.insert(at, (key, value)),
        )[other] == entries_map(entries)[other],
    decreases entries.len() - at,
{
    let longer = entries.insert(at, (key, value));
    if at == entries.len() {
        assert(longer.drop_last() =~= entries);
    } else {
        assert(longer.drop_last() =~= entries.drop_last().insert(at, (key, value)));
        assert(longer.last() == entries.last());
        lemma_entry_added(entries.drop_last(), at, key, value, other);
    }
}

/// A field put into a table, at whatever place, changes nothing of what the
/// table holds under any other key.
pub proof fn lemma_field_added(
    entries: Seq<(Seq<char>, Doc)>,
    at: int,
    key: Seq<char>,
    value: Doc,
    other: Seq<char>,
)
    requires
        0 <= at <= entries.len(),
        other != key,
    ensures
        Doc::Table(entries.insert(at, (key, value))).at(other) == Doc::Table(entries).at(other),
{
    lemma_entry_added(entries, at, key, value, other);
}

/// The keys that the mapping of a kind looks up at the top of a document.
pub open spec fn keys_read(kind: ConfigKind) -> Set<Seq<char>> {
    match kind {
        ConfigKind::PackageJson => set![
            "name"@,
            "version"@,
            "description"@,
            "author"@,
            "license"@,
            "keywords"@,
            "dependencies"@,
            "scripts"@,
        ],
        ConfigKind::DenoJson => set![
            "name"@,
            "version"@,
            "description"@,
            "license"@,
            "keywords"@,
            "imports"@,
            "scripts"@,
        ],
        ConfigKind::CargoToml => set!["package"@, "dependencies"@],
        ConfigKind::PyprojectToml => set!["project"@],
    }
}

/// The keys that the mapping of a TOML manifest looks up in the manifest's
/// section.
pub open spec fn section_keys_read() -> Set<Seq<char>> {
    set!["name"@, "version"@, "description"@, "authors"@, "license"@, "keywords"@]
}

/// A field that the mapping of a kind does not look up is not read: put into
/// the top of a document, at whatever place and with whatever value, it
/// changes nothing of the record.
pub proof fn unknown_field_is_ignored(
    kind: ConfigKind,
    entries: Seq<(Seq<char>, Doc)>,
    at: int,
    key: Seq<char>,
    value: Doc,
)
    requires
        0 <= at <= entries.len(),
        !keys_read(kind).contains(key),
    ensures
        metadata_of(kind, Doc::Table(entries.insert(at, (key, value)))) == metadata_of(
            kind,
            Doc::Table(entries),
        ),
{
    match kind {
        ConfigKind::PackageJson => {
            lemma_field_added(entries, at, key, value, "name"@);
            lemma_field_added(entries, at, key, value, "version"@);
            lemma_field_added(entries, at, key, value, "description"@);
            lemma_field_added(entries, at, key, value, "author"@);
            lemma_field_added(entries, at, key, value, "license"@);
            lemma_field_added(entries, at, key, value, "keywords"@);
            lemma_field_added(entries, at, key, value, "dependencies"@);
            lemma_field_added(entries, at, key, value, "scripts"@);
        },
        ConfigKind::DenoJson => {
            lemma_field_added(entries, at, key, value, "name"@);
            lemma_field_added(entries, at, key, value, "version"@);
            lemma_field_added(entries, at, key, value, "description"@);
            lemma_field_added(entries, at, key, value, "license"@);
            lemma_field_added(entries, at, key, value, "keywords"@);
            lemma_field_added(entries, at, key, value, "imports"@);
            lemma_field_added(entries, at, key, value, "scripts"@);
        },
        ConfigKind::CargoToml => {
            lemma_field_added(entries, at, key, value, "package"@);
            lemma_field_added(entries, at, key, value, "dependencies"@);
        },
        ConfigKind::PyprojectToml => {
            lemma_field_added(entries, at, key, value, "project"@);
        },
    }
}

/// A field that the mapping of a TOML manifest does not look up in the
/// manifest's section is not read: put into the section, it changes nothing
/// of the record. This holds where the dependencies lie beside the section,
/// as in `Cargo.toml`, and, for a field that is not called `dependencies`,
/// where they lie inside it, as in `pyproject.toml`.
pub proof fn unknown_field_of_section_is_ignored(
    entries: Seq<(Seq<char>, Doc)>,
    at: int,
    key: Seq<char>,
    value: Doc,
    dependencies: Doc,
)
    requires
        0 <= at <= entries.len(),
        !section_keys_read().contains(key),
    ensures
        manifest_metadata(Doc::Table(entries.insert(at, (key, value))), dependencies)
            == manifest_metadata(Doc::Table(entries), dependencies),
        key != "dependencies"@ ==> manifest_metadata(
            Doc::Table(entries.insert(at, (key, value))),
            Doc::Table(entries.insert(at, (key, value))).at("dependencies"@),
        ) == manifest_metadata(Doc::Table(entries), Doc::Table(entries).at("dependencies"@)),
{
    lemma_field_added(entries, at, key, value, "name"@);
    lemma_field_added(entries, at, key, value, "version"@);
    lemma_field_added(entries, at, key, value, "description"@);
    lemma_field_added(entries, at, key, value, "authors"@);
    lemma_field_added(entries, at, key, value, "license"@);
    lemma_field_added(entries, at, key, value, "keywords"@);
    if key != "dependencies"@ {
        lemma_field_added(entries, at, key, value, "dependencies"@);
    }
}

/// Whether a source ends a batch.
pub open spec fn fails(source: SourceView) -> bool {
    extraction(source) matches Err(error) && is_fatal(error)
}

/// A file that is not there gives `FileNotFound` with its path, whatever its
/// kind.
pub proof fn missing_file_is_not_found(source: SourceView)
    requires
        source.read is Missing,
    ensures
        extraction(source) == Err::<MetadataView, ErrorView>(
            ErrorView::FileNotFound(source.file.path),
        ),
        !fails(source),
{
}

/// A batch passes over a file that is not there: with that source or without
/// it, the batch gives the same.
pub proof fn missing_file_is_passed_over(sources: Seq<SourceView>, at: int)
    requires
        0 <= at < sources.len(),
        sources[at].read is Missing,
    ensures
        collected(sources) == collected(sources.remove(at)),
        batch(sources) == batch(sources.remove(at)),
    decreases sources.len(),
{
    if at == sources.len() - 1 {
        assert(sources.remove(at) =~= sources.drop_last());
    } else {
        let shorter = sources.drop_last();
        assert(sources.remove(at).drop_last() =~= shorter.remove(at));
        assert(sources.remove(at).last() == sources.last());
        missing_file_is_passed_over(shorter, at);
    }
}

/// A file whose text is malformed for its kind gives the parse error of that
/// kind with its path, and that error ends a batch.
pub proof fn malformed_file_is_a_parse_error(source: SourceView)
    requires
        source.read matches FileReadView::Contents(text) && parsed_as(
            source.file.kind,
            text,
        ) is None,
    ensures
        extraction(source) == Err::<MetadataView, ErrorView>(
            parse_error(source.file.kind, source.file.path),
        ),
        fails(source),
{
}

/// Sources of which none ends a batch give records and no error.
pub proof fn lemma_collected_succeeds(sources: Seq<SourceView>)
    requires
        forall|i: int| 0 <= i < sources.len() ==> !fails(#[trigger] sources[i]),
    ensures
        collected(sources) is Ok,
    decreases sources.len(),
{
    if sources.len() > 0 {
        let shorter = sources.drop_last();
        assert forall|i: int| 0 <= i < shorter.len() implies !fails(#[trigger] shorter[i]) by {
            assert(shorter[i] == sources[i]);
        }
        lemma_collected_succeeds(shorter);
        assert(!fails(sources[sources.len() - 1]));
    }
}

/// The first source that ends a batch decides what the batch gives: its
/// error, whatever the later sources hold.
pub proof fn first_failure_ends_the_batch(sources: Seq<SourceView>, at: int)
    requires
        0 <= at < sources.len(),
        forall|i: int| 0 <= i < at ==> !fails(#[trigger] sources[i]),
        fails(sources[at]),
    ensures
        batch(sources) == Err::<Seq<LoadedView>, ErrorView>(extraction(sources[at])->Err_0),
{
    let earlier = sources.take(at);
    assert forall|i: int| 0 <= i < earlier.len() implies !fails(#[trigger] earlier[i]) by {
        assert(earlier[i] == sources[i]);
    }
    lemma_collected_succeeds(earlier);
    lemma_collected_fails(sources, at);
}

/// Sources whose files are all not there give no record.
pub proof fn lemma_nothing_collected(sources: Seq<SourceView>)
    requires
        forall|i: int| 0 <= i < sources.len() ==> (#[trigger] sources[i]).read is Missing,
    ensures
        collected(sources) == Ok::<Seq<LoadedView>, ErrorView>(Seq::empty()),
    decreases sources.len(),
{
    if sources.len() > 0 {
        let shorter = sources.drop_last();
        assert forall|i: int| 0 <= i < shorter.len() implies (#[trigger] shorter[i]).read
            is Missing by {
            assert(shorter[i] == sources[i]);
        }
        lemma_nothing_collected(shorter);
        assert(sources[sources.len() - 1].read is Missing);
    }
}

/// A batch of which no file is there gives `NoFilesFound`. So does the batch
/// of no source at all.
pub proof fn no_file_at_all_is_an_error(sources: Seq<SourceView>)
    requires
        forall|i: int| 0 <= i < sources.len() ==> (#[trigger] sources[i]).read is Missing,
    ensures
        batch(sources) == Err::<Seq<LoadedView>, ErrorView>(ErrorView::NoFilesFound),
{
    lemma_nothing_collected(sources);
}

/// Reading the same file twice, from the same text, gives the same both
/// times: two equal records, which do not differ in any field, or the same
/// error.
pub proof fn reading_twice_gives_the_same(
    file: ConfigFile,
    read: FileRead,
    first: Result<ProjectMetadata, MetadataError>,
    second: Result<ProjectMetadata, MetadataError>,
)
    requires
        outcome_view(first) == extraction(source_of(file, read)),
        outcome_view(second) == extraction(source_of(file, read)),
    ensures
        outcome_view(first) == outcome_view(second),
        first matches Ok(a) ==> second matches Ok(b) && a@.same(b@) && differences(a@, b@).len()
            == 0,
{
    if let Ok(a) = first {
        equal_records_have_no_differences(a@, a@);
    }
}

/// Two records have no differences exactly where they are equal. Comparing
/// them then reports nothing, whatever files they came from. Records with
/// the same value are equal.
pub proof fn equal_records_have_no_differences(first: MetadataView, other: MetadataView)
    ensures
        first.same(other) <==> differences(first, other).len() == 0,
        first.same(other) ==> forall|first_path: Seq<char>, other_path: Seq<char>| #[trigger]
            compared(
                LoadedView { path: first_path, metadata: first },
                LoadedView { path: other_path, metadata: other },
            ).len() == 0,
        first == other ==> first.same(other),
{
}

/// Where fewer than two records were loaded there is nothing to compare, and
/// nothing is reported.
pub proof fn fewer_than_two_records_have_no_discrepancies(loaded: Seq<LoadedView>)
    requires
        loaded.len() < 2,
    ensures
        discrepancies(loaded).len() == 0,
{
}

/// Two records with different names are reported to differ in their names:
/// the first difference holds both names, and the first discrepancy holds
/// them with the paths of both files.
pub proof fn differing_names_are_reported(first: LoadedView, other: LoadedView)
    requires
        first.metadata.name != other.metadata.name,
    ensures
        differences(first.metadata, other.metadata).len() > 0,
        differences(first.metadata, other.metadata)[0] == DifferenceView::Name(
            first.metadata.name,
            other.metadata.name,
        ),
        compared(first, other).len() > 0,
        compared(first, other)[0] == (DiscrepancyView {
            first_path: first.path,
            other_path: other.path,
            difference: DifferenceView::Name(first.metadata.name, other.metadata.name),
        }),
{
}

} // verus!

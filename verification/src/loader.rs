//! Reading metadata from one configuration file, and from several at once.

use vstd::prelude::*;
use crate::config::{
    detected_sources, sources_view, ConfigFile, ConfigKind, ConfigSource, DetectedReads, ErrorView,
    FileRead, FileReadView, MetadataError, SourceView,
};
use crate::document::{Doc, Tree};
use crate::json_reader::{json_parsed, read_json};
use crate::mapper::{
    cargo_toml_metadata, deno_json_metadata, package_json_metadata, pyproject_toml_metadata,
};
use crate::metadata::{MetadataView, ProjectMetadata};
use crate::toml_reader::{read_toml, toml_parsed};

verus! {

/// The metadata that the document of a file of some kind gives.
pub open spec fn metadata_of(kind: ConfigKind, doc: Doc) -> MetadataView {
    match kind {
        ConfigKind::PackageJson => package_json_metadata(doc),
        ConfigKind::CargoToml => cargo_toml_metadata(doc),
        ConfigKind::DenoJson => deno_json_metadata(doc),
        ConfigKind::PyprojectToml => pyproject_toml_metadata(doc),
    }
}

/// The document that a text is parsed into as a file of some kind: JSON for
/// two of the kinds, TOML for the other two. `None` where the text is
/// malformed.
pub open spec fn parsed_as(kind: ConfigKind, text: Seq<char>) -> Option<Doc> {
    match kind {
        ConfigKind::PackageJson | ConfigKind::DenoJson => json_parsed(text),
        ConfigKind::CargoToml | ConfigKind::PyprojectToml => toml_parsed(text),
    }
}

/// The error for a malformed file of some kind.
pub open spec fn parse_error(kind: ConfigKind, path: Seq<char>) -> ErrorView {
    match kind {
        ConfigKind::PackageJson | ConfigKind::DenoJson => ErrorView::JsonParseError(path),
        ConfigKind::CargoToml | ConfigKind::PyprojectToml => ErrorView::TomlParseError(path),
    }
}

/// What a file gives once it was parsed, or found malformed.
pub open spec fn mapped(kind: ConfigKind, path: Seq<char>, parsed: Option<Doc>) -> Result<
    MetadataView,
    ErrorView,
> {
    match parsed {
        Some(doc) => Ok(metadata_of(kind, doc)),
        None => Err(parse_error(kind, path)),
    }
}

/// What one source gives: the metadata of its file, or the error that it ends
/// in.
pub open spec fn extraction(source: SourceView) -> Result<MetadataView, ErrorView> {
    match source.read {
        FileReadView::Missing => Err(ErrorView::FileNotFound(source.file.path)),
        FileReadView::Unreadable => Err(ErrorView::ReadError(source.file.path)),
        FileReadView::Contents(text) => mapped(
            source.file.kind,
            source.file.path,
            parsed_as(source.file.kind, text),
        ),
    }
}

/// A file with what reading it gave.
pub open spec fn source_of(file: ConfigFile, read: FileRead) -> SourceView {
    SourceView { file: file@, read: read@ }
}

/// The document of a tree that may be missing.
pub open spec fn optional_doc(tree: Option<&Tree>) -> Option<Doc> {
    match tree {
        Some(t) => Some(t@),
        None => None,
    }
}

/// The view of what reading metadata returned.
pub open spec fn outcome_view(outcome: Result<ProjectMetadata, MetadataError>) -> Result<
    MetadataView,
    ErrorView,
> {
    match outcome {
        Ok(metadata) => Ok(metadata@),
        Err(error) => Err(error@),
    }
}

/// A record together with the path of the file that it was read from.
pub struct LoadedView {
    pub path: Seq<char>,
    pub metadata: MetadataView,
}

/// The paths and the records of a batch, put together one by one.
pub open spec fn loaded_view(paths: Seq<String>, records: Seq<ProjectMetadata>) -> Seq<
    LoadedView,
> {
    Seq::new(records.len(), |i: int| LoadedView { path: paths[i]@, metadata: records[i]@ })
}

/// The views of a list of records.
pub open spec fn records_view(records: Seq<ProjectMetadata>) -> Seq<MetadataView> {
    Seq::new(records.len(), |i: int| records[i]@)
}

/// The records alone.
pub open spec fn records_of(loaded: Seq<LoadedView>) -> Seq<MetadataView> {
    Seq::new(loaded.len(), |i: int| loaded[i].metadata)
}

/// Whether an error ends a batch. A file that is not there does not.
pub open spec fn is_fatal(error: ErrorView) -> bool {
    !(error is FileNotFound)
}

/// What a list of sources gives, taken in order: the records of the files
/// that were read, or the first error that is fatal. A file that is not there
/// is passed over.
pub open spec fn collected(sources: Seq<SourceView>) -> Result<Seq<LoadedView>, ErrorView>
    decreases sources.len(),
{
    if sources.len() == 0 {
        Ok(Seq::empty())
    } else {
        match collected(sources.drop_last()) {
            Err(error) => Err(error),
            Ok(before) => match extraction(sources.last()) {
                Ok(metadata) => Ok(
                    before.push(LoadedView { path: sources.last().file.path, metadata }),
                ),
                Err(error) => if is_fatal(error) {
                    Err(error)
                } else {
                    Ok(before)
                },
            },
        }
    }
}

/// What loading a list of sources gives: what `collected` gives, but that no
/// record at all is an error.
pub open spec fn batch(sources: Seq<SourceView>) -> Result<Seq<LoadedView>, ErrorView> {
    match collected(sources) {
        Ok(loaded) => if loaded.len() == 0 {
            Err(ErrorView::NoFilesFound)
        } else {
            Ok(loaded)
        },
        Err(error) => Err(error),
    }
}

/// A copy of a path.
fn path_of(config_file: &ConfigFile) -> (path: String)
    ensures
        path@ == config_file@.path,
{
    config_file.file_path().to_owned()
}

/// Parses a text as a file of some kind.
pub fn parse_document(kind: ConfigKind, text: &str) -> (tree: Option<Tree>)
    ensures
        tree matches Some(t) ==> parsed_as(kind, text@) == Some(t@),
        tree is None ==> parsed_as(kind, text@) is None,
{
    match kind {
        ConfigKind::PackageJson | ConfigKind::DenoJson => read_json(text),
        ConfigKind::CargoToml | ConfigKind::PyprojectToml => read_toml(text),
    }
}

impl ProjectMetadata {
    /// Reads the metadata out of the document of a file of some kind.
    pub fn from_document(kind: ConfigKind, tree: &Tree) -> (metadata: ProjectMetadata)
        ensures
            metadata@ == metadata_of(kind, tree@),
    {
        match kind {
            ConfigKind::PackageJson => ProjectMetadata::from_package_json(tree),
            ConfigKind::CargoToml => ProjectMetadata::from_cargo_toml(tree),
            ConfigKind::DenoJson => ProjectMetadata::from_deno_json(tree),
            ConfigKind::PyprojectToml => ProjectMetadata::from_pyproject_toml(tree),
        }
    }

    /// What a file gives once its text was parsed: the metadata of the
    /// document, or the parse error of the file's kind where there is none.
    pub fn from_parsed(config_file: &ConfigFile, parsed: Option<&Tree>) -> (outcome: Result<
        ProjectMetadata,
        MetadataError,
    >)
        ensures
            outcome_view(outcome) == mapped(
                config_file@.kind,
                config_file@.path,
                optional_doc(parsed),
            ),
    {
        match parsed {
            Some(tree) => Ok(ProjectMetadata::from_document(config_file.kind(), tree)),
            None => match config_file.kind() {
                ConfigKind::PackageJson | ConfigKind::DenoJson => Err(
                    MetadataError::JsonParseError(path_of(config_file)),
                ),
                ConfigKind::CargoToml | ConfigKind::PyprojectToml => Err(
                    MetadataError::TomlParseError(path_of(config_file)),
                ),
            },
        }
    }

    /// Reads the metadata of one file from what reading the file gave. A file
    /// that is not there gives `FileNotFound`, one that could not be read
    /// `ReadError`, one that is malformed the parse error of its kind, each
    /// with the file's path; any other file gives its metadata.
    pub fn from_config(config_file: &ConfigFile, read: &FileRead) -> (outcome: Result<
        ProjectMetadata,
        MetadataError,
    >)
        ensures
            outcome_view(outcome) == extraction(source_of(*config_file, *read)),
    {
        match read {
            FileRead::Missing => Err(MetadataError::FileNotFound(path_of(config_file))),
            FileRead::Unreadable => Err(MetadataError::ReadError(path_of(config_file))),
            FileRead::Contents(text) => {
                let parsed = parse_document(config_file.kind(), text.as_str());
                ProjectMetadata::from_parsed(config_file, parsed.as_ref())
            },
        }
    }

    /// Reads the metadata of several files, and keeps for each record the path
    /// of its file: as many paths as records, in the same order. The records
    /// come in the order of their sources. A file that is not there is passed
    /// over; any other error ends the batch and is returned, whatever the
    /// later sources hold. Where no file at all was there, the error is
    /// `NoFilesFound`.
    pub fn load_with_paths(sources: &Vec<ConfigSource>) -> (outcome: Result<
        (Vec<String>, Vec<ProjectMetadata>),
        MetadataError,
    >)
        ensures
            outcome matches Ok(loaded) ==> loaded.0@.len() == loaded.1@.len() && batch(
                sources_view(sources@),
            ) == Ok::<Seq<LoadedView>, ErrorView>(loaded_view(loaded.0@, loaded.1@)),
            outcome matches Err(error) ==> batch(sources_view(sources@)) == Err::<
                Seq<LoadedView>,
                ErrorView,
            >(error@),
    {
        let ghost all = sources_view(sources@);
        let mut paths: Vec<String> = Vec::new();
        let mut records: Vec<ProjectMetadata> = Vec::new();
        let mut i: usize = 0;
        assert(all.take(0) =~= Seq::empty());
        assert(loaded_view(paths@, records@) =~= Seq::empty());
        while i < sources.len()
            invariant
                i <= sources@.len(),
                all == sources_view(sources@),
                paths@.len() == records@.len(),
                collected(all.take(i as int)) == Ok::<Seq<LoadedView>, ErrorView>(
                    loaded_view(paths@, records@),
                ),
            decreases sources@.len() - i,
        {
            let ghost before = loaded_view(paths@, records@);
            proof {
                assert(all.take(i + 1).drop_last() =~= all.take(i as int));
                assert(all.take(i + 1).last() == sources@[i as int]@);
            }
            match ProjectMetadata::from_config(&sources[i].file, &sources[i].read) {
                Ok(metadata) => {
                    paths.push(path_of(&sources[i].file));
                    records.push(metadata);
                    assert(loaded_view(paths@, records@) =~= before.push(
                        LoadedView { path: sources@[i as int]@.file.path, metadata: metadata@ },
                    ));
                },
                Err(MetadataError::FileNotFound(_)) => {},
                Err(error) => {
                    proof {
                        lemma_collected_fails(all, i as int);
                    }
                    return Err(error);
                },
            }
            i += 1;
        }
        assert(all.take(i as int) =~= all);
        if records.len() == 0 {
            return Err(MetadataError::NoFilesFound);
        }
        Ok((paths, records))
    }

    /// Reads the metadata of several files. The records come in the order of
    /// their sources. A file that is not there is passed over; any other error
    /// ends the batch and is returned, whatever the later sources hold. Where
    /// no file at all was there, the error is `NoFilesFound`.
    pub fn load_from_config_files(config_files: Vec<ConfigSource>) -> (outcome: Result<
        Vec<ProjectMetadata>,
        MetadataError,
    >)
        ensures
            outcome matches Ok(records) ==> batch(sources_view(config_files@)) matches Ok(loaded)
                && records_view(records@) == records_of(loaded),
            outcome matches Err(error) ==> batch(sources_view(config_files@)) == Err::<
                Seq<LoadedView>,
                ErrorView,
            >(error@),
    {
        match ProjectMetadata::load_with_paths(&config_files) {
            Ok((paths, records)) => {
                assert(records_view(records@) =~= records_of(loaded_view(paths@, records@)));
                Ok(records)
            },
            Err(error) => Err(error),
        }
    }

    /// Reads the metadata of the files of a project's directory:
    /// `package.json`, `Cargo.toml`, `deno.json` and `pyproject.toml`, in this
    /// order, as `load_from_config_files` reads any list of files.
    pub fn from_detected_config_files(cwd: &str, reads: DetectedReads) -> (outcome: Result<
        Vec<ProjectMetadata>,
        MetadataError,
    >)
        ensures
            outcome matches Ok(records) ==> batch(detected_sources(cwd@, reads)) matches Ok(loaded)
                && records_view(records@) == records_of(loaded),
            outcome matches Err(error) ==> batch(detected_sources(cwd@, reads)) == Err::<
                Seq<LoadedView>,
                ErrorView,
            >(error@),
    {
        ProjectMetadata::load_from_config_files(reads.into_sources(cwd))
    }
}

/// A fatal error of one source, after sources that gave none, is what the
/// whole list gives, whatever follows.
pub proof fn lemma_collected_fails(sources: Seq<SourceView>, at: int)
    requires
        0 <= at < sources.len(),
        collected(sources.take(at)) is Ok,
        extraction(sources[at]) matches Err(error) && is_fatal(error),
    ensures
        collected(sources) == Err::<Seq<LoadedView>, ErrorView>(extraction(sources[at])->Err_0),
        batch(sources) == Err::<Seq<LoadedView>, ErrorView>(extraction(sources[at])->Err_0),
    decreases sources.len(),
{
    if at == sources.len() - 1 {
        assert(sources.drop_last() =~= sources.take(at));
    } else {
        let shorter = sources.drop_last();
        assert(shorter.take(at) =~= sources.take(at));
        lemma_collected_fails(shorter, at);
    }
}

} // verus!

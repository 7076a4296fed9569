//! Which files are read, what reading them gave, and what can go wrong.

use vstd::prelude::*;
use vstd::string::StringExecFns;

verus! {

/// The four kinds of configuration file.
#[derive(Debug, Clone, Copy, PartialEq, Eq, Structural)]
pub enum ConfigKind {
    PackageJson,
    CargoToml,
    DenoJson,
    PyprojectToml,
}

impl ConfigKind {
    /// The name under which a file of this kind lies in a project's
    /// directory.
    pub open spec fn file_name(self) -> Seq<char> {
        match self {
            ConfigKind::PackageJson => "package.json"@,
            ConfigKind::CargoToml => "Cargo.toml"@,
            ConfigKind::DenoJson => "deno.json"@,
            ConfigKind::PyprojectToml => "pyproject.toml"@,
        }
    }
}

/// A configuration file that may be read: its kind and its path. It holds
/// nothing of the file's content.
#[derive(Debug, Clone, PartialEq, Eq)]
pub enum ConfigFile {
    PackageJson(String),
    CargoToml(String),
    DenoJson(String),
    PyprojectToml(String),
}

/// The mathematical value of a `ConfigFile`.
pub struct ConfigFileView {
    pub kind: ConfigKind,
    pub path: Seq<char>,
}

impl View for ConfigFile {
    type V = ConfigFileView;

    open spec fn view(&self) -> ConfigFileView {
        match self {
            ConfigFile::PackageJson(path) => ConfigFileView {
                kind: ConfigKind::PackageJson,
                path: path@,
            },
            ConfigFile::CargoToml(path) => ConfigFileView {
                kind: ConfigKind::CargoToml,
                path: path@,
            },
            ConfigFile::DenoJson(path) => ConfigFileView { kind: ConfigKind::DenoJson, path: path@ },
            ConfigFile::PyprojectToml(path) => ConfigFileView {
                kind: ConfigKind::PyprojectToml,
                path: path@,
            },
        }
    }
}

impl ConfigFile {
    /// The path of the file.
    pub fn file_path(&self) -> (path: &str)
        ensures
            path@ == self@.path,
    {
        match self {
            ConfigFile::PackageJson(path) => path.as_str(),
            ConfigFile::CargoToml(path) => path.as_str(),
            ConfigFile::DenoJson(path) => path.as_str(),
            ConfigFile::PyprojectToml(path) => path.as_str(),
        }
    }

    /// The kind of the file.
    pub fn kind(&self) -> (kind: ConfigKind)
        ensures
            kind == self@.kind,
    {
        match self {
            ConfigFile::PackageJson(_) => ConfigKind::PackageJson,
            ConfigFile::CargoToml(_) => ConfigKind::CargoToml,
            ConfigFile::DenoJson(_) => ConfigKind::DenoJson,
            ConfigFile::PyprojectToml(_) => ConfigKind::PyprojectToml,
        }
    }

    /// The file of a kind in a project's directory: the directory, a slash
    /// and the kind's file name.
    pub fn in_directory(kind: ConfigKind, directory: &str) -> (file: ConfigFile)
        ensures
            file@ == detected(kind, directory@),
    {
        let root: String = directory.to_owned();
        match kind {
            ConfigKind::PackageJson => ConfigFile::PackageJson(
                root.concat("/").concat("package.json"),
            ),
            ConfigKind::CargoToml => ConfigFile::CargoToml(root.concat("/").concat("Cargo.toml")),
            ConfigKind::DenoJson => ConfigFile::DenoJson(root.concat("/").concat("deno.json")),
            ConfigKind::PyprojectToml => ConfigFile::PyprojectToml(
                root.concat("/").concat("pyproject.toml"),
            ),
        }
    }
}

/// The file of a kind in a project's directory.
pub open spec fn detected(kind: ConfigKind, directory: Seq<char>) -> ConfigFileView {
    ConfigFileView { kind, path: directory + "/"@ + kind.file_name() }
}

/// What reading a file gave.
#[derive(Debug, Clone, PartialEq, Eq)]
pub enum FileRead {
    /// The file is not there, or could not be opened.
    Missing,
    /// The file was opened, and reading it failed.
    Unreadable,
    /// The whole text of the file.
    Contents(String),
}

/// The mathematical value of a `FileRead`.
pub enum FileReadView {
    Missing,
    Unreadable,
    Contents(Seq<char>),
}

impl View for FileRead {
    type V = FileReadView;

    open spec fn view(&self) -> FileReadView {
        match self {
            FileRead::Missing => FileReadView::Missing,
            FileRead::Unreadable => FileReadView::Unreadable,
            FileRead::Contents(text) => FileReadView::Contents(text@),
        }
    }
}

/// A configuration file together with what reading it gave.
#[derive(Debug, Clone, PartialEq, Eq)]
pub struct ConfigSource {
    pub file: ConfigFile,
    pub read: FileRead,
}

/// The mathematical value of a `ConfigSource`.
pub struct SourceView {
    pub file: ConfigFileView,
    pub read: FileReadView,
}

impl View for ConfigSource {
    type V = SourceView;

    open spec fn view(&self) -> SourceView {
        SourceView { file: self.file@, read: self.read@ }
    }
}

/// The views of a list of sources.
pub open spec fn sources_view(sources: Seq<ConfigSource>) -> Seq<SourceView> {
    Seq::new(sources.len(), |i: int| sources[i]@)
}

/// What reading the four files of a project's directory gave.
#[derive(Debug, Clone, PartialEq, Eq)]
pub struct DetectedReads {
    pub package_json: FileRead,
    pub cargo_toml: FileRead,
    pub deno_json: FileRead,
    pub pyproject_toml: FileRead,
}

/// The four sources of a project's directory, in their fixed order.
pub open spec fn detected_sources(directory: Seq<char>, reads: DetectedReads) -> Seq<SourceView> {
    seq![
        SourceView {
            file: detected(ConfigKind::PackageJson, directory),
            read: reads.package_json@,
        },
        SourceView { file: detected(ConfigKind::CargoToml, directory), read: reads.cargo_toml@ },
        SourceView { file: detected(ConfigKind::DenoJson, directory), read: reads.deno_json@ },
        SourceView {
            file: detected(ConfigKind::PyprojectToml, directory),
            read: reads.pyproject_toml@,
        },
    ]
}

impl DetectedReads {
    /// The four files of a project's directory with what reading them gave:
    /// `package.json`, `Cargo.toml`, `deno.json`, `pyproject.toml`, in this
    /// order.
    pub fn into_sources(self, directory: &str) -> (sources: Vec<ConfigSource>)
        ensures
            sources_view(sources@) == detected_sources(directory@, self),
    {
        let mut sources: Vec<ConfigSource> = Vec::new();
        sources.push(
            ConfigSource {
                file: ConfigFile::in_directory(ConfigKind::PackageJson, directory),
                read: self.package_json,
            },
        );
        sources.push(
            ConfigSource {
                file: ConfigFile::in_directory(ConfigKind::CargoToml, directory),
                read: self.cargo_toml,
            },
        );
        sources.push(
            ConfigSource {
                file: ConfigFile::in_directory(ConfigKind::DenoJson, directory),
                read: self.deno_json,
            },
        );
        sources.push(
            ConfigSource {
                file: ConfigFile::in_directory(ConfigKind::PyprojectToml, directory),
                read: self.pyproject_toml,
            },
        );
        assert(sources_view(sources@) =~= detected_sources(directory@, self));
        sources
    }
}

/// The files that are looked for in a project's directory, in their fixed
/// order.
pub fn detected_config_files(directory: &str) -> (files: Vec<ConfigFile>)
    ensures
        files@.len() == 4,
        files@[0]@ == detected(ConfigKind::PackageJson, directory@),
        files@[1]@ == detected(ConfigKind::CargoToml, directory@),
        files@[2]@ == detected(ConfigKind::DenoJson, directory@),
        files@[3]@ == detected(ConfigKind::PyprojectToml, directory@),
{
    let mut files: Vec<ConfigFile> = Vec::new();
    files.push(ConfigFile::in_directory(ConfigKind::PackageJson, directory));
    files.push(ConfigFile::in_directory(ConfigKind::CargoToml, directory));
    files.push(ConfigFile::in_directory(ConfigKind::DenoJson, directory));
    files.push(ConfigFile::in_directory(ConfigKind::PyprojectToml, directory));
    files
}

/// What can go wrong when metadata is read. Each variant but the last holds
/// the path of the file in question.
#[derive(Debug, Clone, PartialEq, Eq)]
pub enum MetadataError {
    FileNotFound(String),
    ReadError(String),
    JsonParseError(String),
    TomlParseError(String),
    NoFilesFound,
}

/// The mathematical value of a `MetadataError`.
pub enum ErrorView {
    FileNotFound(Seq<char>),
    ReadError(Seq<char>),
    JsonParseError(Seq<char>),
    TomlParseError(Seq<char>),
    NoFilesFound,
}

impl View for MetadataError {
    type V = ErrorView;

    open spec fn view(&self) -> ErrorView {
        match self {
            MetadataError::FileNotFound(path) => ErrorView::FileNotFound(path@),
            MetadataError::ReadError(path) => ErrorView::ReadError(path@),
            MetadataError::JsonParseError(path) => ErrorView::JsonParseError(path@),
            MetadataError::TomlParseError(path) => ErrorView::TomlParseError(path@),
            MetadataError::NoFilesFound => ErrorView::NoFilesFound,
        }
    }
}

impl ErrorView {
    /// The error as a line of text.
    pub open spec fn message(self) -> Seq<char> {
        match self {
            ErrorView::FileNotFound(path) => "File not found: "@ + path,
            ErrorView::ReadError(path) => "Failed to read file: "@ + path,
            ErrorView::JsonParseError(path) => "Failed to parse JSON: "@ + path,
            ErrorView::TomlParseError(path) => "Failed to parse TOML: "@ + path,
            ErrorView::NoFilesFound => "No configuration files found"@,
        }
    }
}

impl MetadataError {
    /// The error as a line of text.
    pub fn message(&self) -> (message: String)
        ensures
            message@ == self@.message(),
    {
        match self {
            MetadataError::FileNotFound(path) => "File not found: ".to_owned().concat(
                path.as_str(),
            ),
            MetadataError::ReadError(path) => "Failed to read file: ".to_owned().concat(
                path.as_str(),
            ),
            MetadataError::JsonParseError(path) => "Failed to parse JSON: ".to_owned().concat(
                path.as_str(),
            ),
            MetadataError::TomlParseError(path) => "Failed to parse TOML: ".to_owned().concat(
                path.as_str(),
            ),
            MetadataError::NoFilesFound => "No configuration files found".to_owned(),
        }
    }
}

} // verus!

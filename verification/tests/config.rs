use project_meta::config::{
    detected_config_files, ConfigFile, ConfigKind, ConfigSource, DetectedReads, FileRead,
    MetadataError,
};

#[test]
fn a_config_file_knows_its_path_and_kind() {
    let files = vec![
        (ConfigFile::PackageJson("a/package.json".to_string()), ConfigKind::PackageJson),
        (ConfigFile::CargoToml("b/Cargo.toml".to_string()), ConfigKind::CargoToml),
        (ConfigFile::DenoJson("c/deno.json".to_string()), ConfigKind::DenoJson),
        (ConfigFile::PyprojectToml("d/pyproject.toml".to_string()), ConfigKind::PyprojectToml),
    ];
    let paths = vec!["a/package.json", "b/Cargo.toml", "c/deno.json", "d/pyproject.toml"];
    for (i, (file, kind)) in files.iter().enumerate() {
        assert_eq!(file.file_path(), paths[i]);
        assert_eq!(file.kind(), *kind);
    }
}

#[test]
fn the_files_of_a_directory_are_four_in_a_fixed_order() {
    assert_eq!(
        detected_config_files("/work/project"),
        vec![
            ConfigFile::PackageJson("/work/project/package.json".to_string()),
            ConfigFile::CargoToml("/work/project/Cargo.toml".to_string()),
            ConfigFile::DenoJson("/work/project/deno.json".to_string()),
            ConfigFile::PyprojectToml("/work/project/pyproject.toml".to_string()),
        ]
    );
}

#[test]
fn a_file_in_a_directory_is_joined_with_a_slash() {
    assert_eq!(
        ConfigFile::in_directory(ConfigKind::CargoToml, "."),
        ConfigFile::CargoToml("./Cargo.toml".to_string())
    );
    assert_eq!(
        ConfigFile::in_directory(ConfigKind::DenoJson, ""),
        ConfigFile::DenoJson("/deno.json".to_string())
    );
}

#[test]
fn reads_of_a_directory_become_its_four_sources() {
    let reads = DetectedReads {
        package_json: FileRead::Contents("{}".to_string()),
        cargo_toml: FileRead::Missing,
        deno_json: FileRead::Unreadable,
        pyproject_toml: FileRead::Contents("".to_string()),
    };
    assert_eq!(
        reads.into_sources("p"),
        vec![
            ConfigSource {
                file: ConfigFile::PackageJson("p/package.json".to_string()),
                read: FileRead::Contents("{}".to_string()),
            },
            ConfigSource {
                file: ConfigFile::CargoToml("p/Cargo.toml".to_string()),
                read: FileRead::Missing,
            },
            ConfigSource {
                file: ConfigFile::DenoJson("p/deno.json".to_string()),
                read: FileRead::Unreadable,
            },
            ConfigSource {
                file: ConfigFile::PyprojectToml("p/pyproject.toml".to_string()),
                read: FileRead::Contents("".to_string()),
            },
        ]
    );
}

#[test]
fn every_error_has_its_message() {
    assert_eq!(
        MetadataError::FileNotFound("a.json".to_string()).message(),
        "File not found: a.json"
    );
    assert_eq!(
        MetadataError::ReadError("a.json".to_string()).message(),
        "Failed to read file: a.json"
    );
    assert_eq!(
        MetadataError::JsonParseError("a.json".to_string()).message(),
        "Failed to parse JSON: a.json"
    );
    assert_eq!(
        MetadataError::TomlParseError("a.toml".to_string()).message(),
        "Failed to parse TOML: a.toml"
    );
    assert_eq!(MetadataError::NoFilesFound.message(), "No configuration files found");
}

use project_meta::checker::{Difference, Discrepancy};
use project_meta::config::{ConfigFile, ConfigSource, DetectedReads, FileRead, MetadataError};
use project_meta::metadata::{Dependencies, ProjectMetadata};
use project_meta::ordered_map::OrderedMap;

fn minimal(name: &str, version: &str) -> ProjectMetadata {
    ProjectMetadata {
        name: name.to_string(),
        version: version.to_string(),
        description: None,
        authors: None,
        license: None,
        keywords: None,
        dependencies: None,
        scripts: None,
    }
}

fn texts(pairs: &[(&str, &str)]) -> OrderedMap<String> {
    let mut map = OrderedMap::new();
    for (key, value) in pairs {
        map.insert(key.to_string(), value.to_string());
    }
    map
}

fn full() -> ProjectMetadata {
    ProjectMetadata {
        name: "pkg".to_string(),
        version: "1.0.0".to_string(),
        description: Some("d".to_string()),
        authors: Some(vec!["Jane".to_string(), "Joe".to_string()]),
        license: Some("MIT".to_string()),
        keywords: Some(vec!["a".to_string(), "b".to_string()]),
        dependencies: Some(Dependencies::Simple(texts(&[("x", "1"), ("y", "2")]))),
        scripts: Some(texts(&[("build", "make"), ("test", "check")])),
    }
}

fn labels(found: &[Difference]) -> Vec<&'static str> {
    found.iter().map(|d| d.label()).collect()
}

#[test]
fn equal_records_do_not_differ() {
    assert!(full().differences(&full()).is_empty());
    assert!(minimal("x", "1").differences(&minimal("x", "1")).is_empty());
    assert!(full().differences(&full().clone()).is_empty());
}

#[test]
fn records_with_maps_in_another_order_do_not_differ() {
    let mut other = full();
    other.dependencies = Some(Dependencies::Simple(texts(&[("y", "2"), ("x", "1")])));
    other.scripts = Some(texts(&[("test", "check"), ("build", "make")]));
    assert_eq!(full(), other);
    assert!(full().differences(&other).is_empty());
}

#[test]
fn records_with_lists_in_another_order_differ() {
    let mut other = full();
    other.authors = Some(vec!["Joe".to_string(), "Jane".to_string()]);
    assert_ne!(full(), other);
    assert_eq!(labels(&full().differences(&other)), vec!["Authors"]);
}

#[test]
fn differing_names_are_reported_with_both_names() {
    let found = minimal("one", "1").differences(&minimal("two", "1"));
    assert_eq!(found.len(), 1);
    match &found[0] {
        Difference::Name(first, other) => {
            assert_eq!(first, "one");
            assert_eq!(other, "two");
        }
        _ => panic!("expected a difference of names"),
    }
    let mut other = full();
    other.name = "another".to_string();
    other.license = None;
    let found = full().differences(&other);
    assert!(matches!(&found[0], Difference::Name(a, b) if a == "pkg" && b == "another"));
}

#[test]
fn every_field_is_compared_in_a_fixed_order() {
    let other = ProjectMetadata {
        name: "other".to_string(),
        version: "2.0.0".to_string(),
        description: None,
        authors: Some(vec!["Jane".to_string()]),
        license: Some("Apache-2.0".to_string()),
        keywords: None,
        dependencies: Some(Dependencies::Detailed(OrderedMap::new())),
        scripts: Some(texts(&[("build", "make")])),
    };
    let found = full().differences(&other);
    assert_eq!(
        labels(&found),
        vec![
            "Name",
            "Version",
            "Description",
            "Authors",
            "License",
            "Keywords",
            "Dependencies",
            "Scripts"
        ]
    );
    assert!(matches!(&found[1], Difference::Version(a, b) if a == "1.0.0" && b == "2.0.0"));
    assert!(matches!(&found[2], Difference::Description(Some(a), None) if a == "d"));
    assert!(
        matches!(&found[3], Difference::Authors(Some(a), Some(b)) if a.len() == 2 && b.len() == 1)
    );
    assert!(
        matches!(&found[4], Difference::License(Some(a), Some(b)) if a == "MIT" && b == "Apache-2.0")
    );
    assert!(matches!(&found[5], Difference::Keywords(Some(a), None) if a.len() == 2));
    assert!(matches!(
        &found[6],
        Difference::Dependencies(Some(Dependencies::Simple(a)), Some(Dependencies::Detailed(b)))
            if a.len() == 2 && b.len() == 0
    ));
    assert!(matches!(&found[7], Difference::Scripts(Some(a), Some(b)) if a.len() == 2 && b.len() == 1));
}

#[test]
fn one_differing_field_gives_one_difference() {
    let mut other = full();
    other.keywords = Some(vec!["a".to_string()]);
    assert_eq!(labels(&full().differences(&other)), vec!["Keywords"]);
    let mut other = full();
    other.scripts = None;
    assert_eq!(labels(&full().differences(&other)), vec!["Scripts"]);
    let mut other = full();
    other.dependencies = Some(Dependencies::Simple(texts(&[("x", "1"), ("y", "3")])));
    assert_eq!(labels(&full().differences(&other)), vec!["Dependencies"]);
}

#[test]
fn differing_versions_of_two_files_are_one_discrepancy() {
    let reads = DetectedReads {
        package_json: FileRead::Contents("{\"name\": \"x\", \"version\": \"1.0.0\"}".to_string()),
        cargo_toml: FileRead::Contents(
            "[package]\nname = \"x\"\nversion = \"1.0.1\"\n".to_string(),
        ),
        deno_json: FileRead::Missing,
        pyproject_toml: FileRead::Missing,
    };
    let report = ProjectMetadata::check_config_files_equality("root", reads).unwrap();
    assert_eq!(report.len(), 1);
    let Discrepancy { first_path, other_path, difference } = &report[0];
    assert_eq!(first_path, "root/package.json");
    assert_eq!(other_path, "root/Cargo.toml");
    assert_eq!(difference.label(), "Version");
    assert!(matches!(difference, Difference::Version(a, b) if a == "1.0.0" && b == "1.0.1"));
}

#[test]
fn files_that_agree_give_no_discrepancy() {
    let reads = DetectedReads {
        package_json: FileRead::Contents("{\"name\": \"x\", \"version\": \"1.0.0\"}".to_string()),
        cargo_toml: FileRead::Contents(
            "[package]\nname = \"x\"\nversion = \"1.0.0\"\n".to_string(),
        ),
        deno_json: FileRead::Contents("{\"version\": \"1.0.0\", \"name\": \"x\"}".to_string()),
        pyproject_toml: FileRead::Contents(
            "[project]\nversion = \"1.0.0\"\nname = \"x\"\n".to_string(),
        ),
    };
    assert_eq!(ProjectMetadata::check_config_files_equality("root", reads).unwrap().len(), 0);
}

#[test]
fn a_single_file_gives_no_discrepancy() {
    let reads = DetectedReads {
        package_json: FileRead::Missing,
        cargo_toml: FileRead::Missing,
        deno_json: FileRead::Contents("{\"name\": \"x\"}".to_string()),
        pyproject_toml: FileRead::Missing,
    };
    assert!(ProjectMetadata::check_config_files_equality("root", reads).unwrap().is_empty());
}

#[test]
fn each_record_is_compared_with_the_first_under_its_own_path() {
    let reads = DetectedReads {
        package_json: FileRead::Missing,
        cargo_toml: FileRead::Contents(
            "[package]\nname = \"x\"\nversion = \"1\"\n".to_string(),
        ),
        deno_json: FileRead::Contents("{\"name\": \"y\", \"version\": \"1\"}".to_string()),
        pyproject_toml: FileRead::Contents(
            "[project]\nname = \"z\"\nversion = \"2\"\n".to_string(),
        ),
    };
    let report = ProjectMetadata::check_config_files_equality("r", reads).unwrap();
    let lines: Vec<(&str, &str, &str)> = report
        .iter()
        .map(|d| (d.first_path.as_str(), d.other_path.as_str(), d.difference.label()))
        .collect();
    assert_eq!(
        lines,
        vec![
            ("r/Cargo.toml", "r/deno.json", "Name"),
            ("r/Cargo.toml", "r/pyproject.toml", "Name"),
            ("r/Cargo.toml", "r/pyproject.toml", "Version"),
        ]
    );
}

#[test]
fn the_errors_of_loading_are_the_errors_of_checking() {
    let reads = DetectedReads {
        package_json: FileRead::Missing,
        cargo_toml: FileRead::Missing,
        deno_json: FileRead::Missing,
        pyproject_toml: FileRead::Missing,
    };
    assert!(matches!(
        ProjectMetadata::check_config_files_equality("r", reads),
        Err(MetadataError::NoFilesFound)
    ));
    let reads = DetectedReads {
        package_json: FileRead::Contents("{}".to_string()),
        cargo_toml: FileRead::Contents("[".to_string()),
        deno_json: FileRead::Missing,
        pyproject_toml: FileRead::Unreadable,
    };
    assert!(matches!(
        ProjectMetadata::check_config_files_equality("r", reads),
        Err(MetadataError::TomlParseError(path)) if path == "r/Cargo.toml"
    ));
    let reads = DetectedReads {
        package_json: FileRead::Unreadable,
        cargo_toml: FileRead::Missing,
        deno_json: FileRead::Missing,
        pyproject_toml: FileRead::Missing,
    };
    assert!(matches!(
        ProjectMetadata::check_config_files_equality("r", reads),
        Err(MetadataError::ReadError(path)) if path == "r/package.json"
    ));
}

#[test]
fn any_list_of_files_can_be_checked() {
    let sources = vec![
        ConfigSource {
            file: ConfigFile::DenoJson("a/deno.json".to_string()),
            read: FileRead::Contents("{\"name\": \"x\", \"license\": \"MIT\"}".to_string()),
        },
        ConfigSource {
            file: ConfigFile::PackageJson("b/package.json".to_string()),
            read: FileRead::Missing,
        },
        ConfigSource {
            file: ConfigFile::DenoJson("c/deno.json".to_string()),
            read: FileRead::Contents("{\"name\": \"x\", \"license\": \"ISC\"}".to_string()),
        },
    ];
    let report = ProjectMetadata::check_equality(&sources).unwrap();
    assert_eq!(report.len(), 1);
    assert_eq!(report[0].first_path, "a/deno.json");
    assert_eq!(report[0].other_path, "c/deno.json");
    assert!(matches!(
        &report[0].difference,
        Difference::License(Some(a), Some(b)) if a == "MIT" && b == "ISC"
    ));
}

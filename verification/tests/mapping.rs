use project_meta::config::{ConfigFile, ConfigKind, FileRead};
use project_meta::document::Tree;
use project_meta::metadata::{Dependencies, DependencyDetails, ProjectMetadata};
use project_meta::ordered_map::OrderedMap;

fn package_json(text: &str) -> ProjectMetadata {
    let file = ConfigFile::PackageJson("package.json".to_string());
    ProjectMetadata::from_config(&file, &FileRead::Contents(text.to_string())).unwrap()
}

fn cargo_toml(text: &str) -> ProjectMetadata {
    let file = ConfigFile::CargoToml("Cargo.toml".to_string());
    ProjectMetadata::from_config(&file, &FileRead::Contents(text.to_string())).unwrap()
}

fn deno_json(text: &str) -> ProjectMetadata {
    let file = ConfigFile::DenoJson("deno.json".to_string());
    ProjectMetadata::from_config(&file, &FileRead::Contents(text.to_string())).unwrap()
}

fn pyproject_toml(text: &str) -> ProjectMetadata {
    let file = ConfigFile::PyprojectToml("pyproject.toml".to_string());
    ProjectMetadata::from_config(&file, &FileRead::Contents(text.to_string())).unwrap()
}

fn minimal(name: &str, version: &str) -> ProjectMetadata {
    ProjectMetadata {
        name: name.to_string(),
        version: version.to_string(),
        description: None,
        authors: None,
        license: None,
        keywords: None,
        dependencies: None,
        scripts: None,
    }
}

fn texts(pairs: &[(&str, &str)]) -> OrderedMap<String> {
    let mut map = OrderedMap::new();
    for (key, value) in pairs {
        map.insert(key.to_string(), value.to_string());
    }
    map
}

fn details(pairs: &[(&str, Option<&str>)]) -> OrderedMap<DependencyDetails> {
    let mut map = OrderedMap::new();
    for (key, version) in pairs {
        map.insert(
            key.to_string(),
            DependencyDetails { version: version.map(|v| v.to_string()), url: None },
        );
    }
    map
}

fn strings(items: &[&str]) -> Vec<String> {
    items.iter().map(|s| s.to_string()).collect()
}

#[test]
fn minimal_package_json_gives_name_and_version_only() {
    let metadata = package_json("{\"name\": \"x\", \"version\": \"1.0.0\"}");
    assert_eq!(metadata, minimal("x", "1.0.0"));
    assert!(metadata.description.is_none());
    assert!(metadata.authors.is_none());
    assert!(metadata.license.is_none());
    assert!(metadata.keywords.is_none());
    assert!(metadata.dependencies.is_none());
    assert!(metadata.scripts.is_none());
}

#[test]
fn minimal_cargo_toml_gives_name_and_version_only() {
    let metadata = cargo_toml("[package]\nname = \"x\"\nversion = \"1.0.0\"\n");
    assert_eq!(metadata, minimal("x", "1.0.0"));
    assert!(metadata.authors.is_none());
    assert!(metadata.keywords.is_none());
    assert!(metadata.dependencies.is_none());
    assert!(metadata.scripts.is_none());
}

#[test]
fn minimal_deno_json_gives_name_and_version_only() {
    let metadata = deno_json("{\"name\": \"x\", \"version\": \"1.0.0\"}");
    assert_eq!(metadata, minimal("x", "1.0.0"));
    assert!(metadata.keywords.is_none());
    assert!(metadata.dependencies.is_none());
    assert!(metadata.scripts.is_none());
}

#[test]
fn minimal_pyproject_toml_gives_name_and_version_only() {
    let metadata = pyproject_toml("[project]\nname = \"x\"\nversion = \"1.0.0\"\n");
    assert_eq!(metadata, minimal("x", "1.0.0"));
    assert!(metadata.authors.is_none());
    assert!(metadata.keywords.is_none());
    assert!(metadata.dependencies.is_none());
    assert!(metadata.scripts.is_none());
}

fn name_and_version() -> Tree {
    Tree::Table(vec![
        ("name".to_string(), Tree::Text("x".to_string())),
        ("version".to_string(), Tree::Text("1.0.0".to_string())),
    ])
}

#[test]
fn minimal_documents_written_by_hand_give_the_same() {
    let fields = name_and_version();
    assert_eq!(ProjectMetadata::from_package_json(&fields), minimal("x", "1.0.0"));
    assert_eq!(ProjectMetadata::from_deno_json(&fields), minimal("x", "1.0.0"));
    assert_eq!(
        ProjectMetadata::from_document(ConfigKind::PackageJson, &fields),
        minimal("x", "1.0.0")
    );
    assert_eq!(
        ProjectMetadata::from_document(ConfigKind::DenoJson, &fields),
        minimal("x", "1.0.0")
    );
    let cargo = Tree::Table(vec![("package".to_string(), name_and_version())]);
    assert_eq!(ProjectMetadata::from_cargo_toml(&cargo), minimal("x", "1.0.0"));
    assert_eq!(
        ProjectMetadata::from_document(ConfigKind::CargoToml, &cargo),
        minimal("x", "1.0.0")
    );
    let pyproject = Tree::Table(vec![("project".to_string(), name_and_version())]);
    assert_eq!(ProjectMetadata::from_pyproject_toml(&pyproject), minimal("x", "1.0.0"));
    assert_eq!(
        ProjectMetadata::from_document(ConfigKind::PyprojectToml, &pyproject),
        minimal("x", "1.0.0")
    );
    assert_eq!(ProjectMetadata::from_cargo_toml(&pyproject), minimal("", ""));
    assert_eq!(ProjectMetadata::from_pyproject_toml(&cargo), minimal("", ""));
}

#[test]
fn an_unknown_field_of_package_json_is_not_read() {
    let metadata = package_json(
        "{\"private\": true, \"name\": \"x\", \"main\": \"index.js\", \"version\": \"1.0.0\", \"bugs\": {\"url\": \"u\"}}",
    );
    assert_eq!(metadata, minimal("x", "1.0.0"));
}

#[test]
fn an_unknown_field_of_cargo_toml_is_not_read() {
    let metadata = cargo_toml(
        "[package]\nname = \"x\"\nversion = \"1.0.0\"\nedition = \"2021\"\n\n[features]\ndefault = []\n\n[profile.release]\nlto = true\n",
    );
    assert_eq!(metadata, minimal("x", "1.0.0"));
}

#[test]
fn an_unknown_field_of_deno_json_is_not_read() {
    let metadata = deno_json(
        "{\"name\": \"x\", \"version\": \"1.0.0\", \"tasks\": {\"dev\": \"deno run\"}, \"lock\": false}",
    );
    assert_eq!(metadata, minimal("x", "1.0.0"));
}

#[test]
fn an_unknown_field_of_pyproject_toml_is_not_read() {
    let metadata = pyproject_toml(
        "[build-system]\nrequires = [\"hatchling\"]\n\n[project]\nname = \"x\"\nversion = \"1.0.0\"\nreadme = \"README.md\"\n\n[tool.ruff]\nline-length = 100\n",
    );
    assert_eq!(metadata, minimal("x", "1.0.0"));
}

#[test]
fn a_single_author_becomes_a_list_of_one() {
    let metadata = package_json("{\"name\":\"x\",\"version\":\"1.0.0\",\"author\":\"Jane\"}");
    let mut expected = minimal("x", "1.0.0");
    expected.authors = Some(strings(&["Jane"]));
    assert_eq!(metadata, expected);
    assert_eq!(metadata.name, "x");
    assert_eq!(metadata.version, "1.0.0");
    assert_eq!(metadata.authors, Some(vec!["Jane".to_string()]));
}

#[test]
fn cargo_dependencies_are_detailed() {
    let metadata =
        cargo_toml("[package]\nname=\"x\"\nversion=\"1.0.0\"\n[dependencies.foo]\nversion=\"2.0\"\n");
    let mut expected = minimal("x", "1.0.0");
    expected.dependencies = Some(Dependencies::Detailed(details(&[("foo", Some("2.0"))])));
    assert_eq!(metadata, expected);
    match &metadata.dependencies {
        Some(Dependencies::Detailed(map)) => {
            assert_eq!(map.len(), 1);
            let foo = map.get("foo").unwrap();
            assert_eq!(foo.version, Some("2.0".to_string()));
            assert_eq!(foo.url, None);
        }
        _ => panic!("expected detailed dependencies"),
    }
}

#[test]
fn deno_imports_are_simple_dependencies() {
    let metadata = deno_json("{\"imports\": {\"std\": \"jsr:@std/x\"}}");
    let mut expected = minimal("", "");
    expected.dependencies = Some(Dependencies::Simple(texts(&[("std", "jsr:@std/x")])));
    assert_eq!(metadata, expected);
    match &metadata.dependencies {
        Some(Dependencies::Simple(map)) => {
            assert_eq!(map.len(), 1);
            assert_eq!(map.get("std").unwrap(), "jsr:@std/x");
        }
        _ => panic!("expected simple dependencies"),
    }
}

#[test]
fn deno_json_never_has_authors() {
    let metadata = deno_json(
        "{\"name\": \"x\", \"version\": \"1\", \"author\": \"Jane\", \"authors\": [\"Jane\", \"Joe\"]}",
    );
    assert!(metadata.authors.is_none());
    assert_eq!(metadata, minimal("x", "1"));
}

#[test]
fn deno_json_does_not_read_dependencies_but_imports() {
    let metadata = deno_json("{\"dependencies\": {\"a\": \"1\"}}");
    assert!(metadata.dependencies.is_none());
}

#[test]
fn a_full_package_json_is_read_field_by_field() {
    let metadata = package_json(
        "{\"name\": \"pkg\", \"version\": \"2.1.0\", \"description\": \"A thing\", \"author\": \"Jane\", \"license\": \"MIT\", \"keywords\": [\"a\", \"b\"], \"dependencies\": {\"left\": \"^1.0\", \"right\": \"~2\"}, \"scripts\": {\"build\": \"tsc\", \"test\": \"jest\"}}",
    );
    let expected = ProjectMetadata {
        name: "pkg".to_string(),
        version: "2.1.0".to_string(),
        description: Some("A thing".to_string()),
        authors: Some(strings(&["Jane"])),
        license: Some("MIT".to_string()),
        keywords: Some(strings(&["a", "b"])),
        dependencies: Some(Dependencies::Simple(texts(&[("right", "~2"), ("left", "^1.0")]))),
        scripts: Some(texts(&[("test", "jest"), ("build", "tsc")])),
    };
    assert_eq!(metadata, expected);
}

#[test]
fn a_full_cargo_toml_is_read_field_by_field() {
    let metadata = cargo_toml(
        "[package]\nname = \"pkg\"\nversion = \"0.3.0\"\ndescription = \"A crate\"\nauthors = [\"Jane\", \"Joe\"]\nlicense = \"Apache-2.0\"\nkeywords = [\"k\"]\n\n[dependencies]\nserde = { version = \"1\", features = [\"derive\"] }\nlocal = { path = \"../local\" }\nplain = \"0.5\"\n",
    );
    let expected = ProjectMetadata {
        name: "pkg".to_string(),
        version: "0.3.0".to_string(),
        description: Some("A crate".to_string()),
        authors: Some(strings(&["Jane", "Joe"])),
        license: Some("Apache-2.0".to_string()),
        keywords: Some(strings(&["k"])),
        dependencies: Some(Dependencies::Detailed(details(&[
            ("serde", Some("1")),
            ("local", None),
            ("plain", None),
        ]))),
        scripts: None,
    };
    assert_eq!(metadata, expected);
}

#[test]
fn a_full_deno_json_is_read_field_by_field() {
    let metadata = deno_json(
        "{\"name\": \"@scope/mod\", \"version\": \"0.1.0\", \"description\": \"A module\", \"license\": \"MIT\", \"keywords\": [\"deno\"], \"imports\": {\"std\": \"jsr:@std/x\"}, \"scripts\": {\"run\": \"deno run main.ts\"}}",
    );
    let expected = ProjectMetadata {
        name: "@scope/mod".to_string(),
        version: "0.1.0".to_string(),
        description: Some("A module".to_string()),
        authors: None,
        license: Some("MIT".to_string()),
        keywords: Some(strings(&["deno"])),
        dependencies: Some(Dependencies::Simple(texts(&[("std", "jsr:@std/x")]))),
        scripts: Some(texts(&[("run", "deno run main.ts")])),
    };
    assert_eq!(metadata, expected);
}

#[test]
fn a_full_pyproject_toml_is_read_field_by_field() {
    let metadata = pyproject_toml(
        "[project]\nname = \"pkg\"\nversion = \"1.2.3\"\ndescription = \"A package\"\nauthors = [\"Jane\"]\nlicense = \"BSD\"\nkeywords = [\"py\", \"thon\"]\n\n[project.dependencies.requests]\nversion = \">=2\"\n\n[project.dependencies.local]\npath = \"x\"\n\n[dependencies.ignored]\nversion = \"9\"\n",
    );
    let expected = ProjectMetadata {
        name: "pkg".to_string(),
        version: "1.2.3".to_string(),
        description: Some("A package".to_string()),
        authors: Some(strings(&["Jane"])),
        license: Some("BSD".to_string()),
        keywords: Some(strings(&["py", "thon"])),
        dependencies: Some(Dependencies::Detailed(details(&[
            ("requests", Some(">=2")),
            ("local", None),
        ]))),
        scripts: None,
    };
    assert_eq!(metadata, expected);
}

#[test]
fn a_list_item_that_is_no_text_counts_as_empty() {
    let metadata = package_json("{\"keywords\": [\"a\", 1, null, {\"b\": \"c\"}, \"d\"]}");
    assert_eq!(metadata.keywords, Some(strings(&["a", "", "", "", "d"])));
    let metadata = cargo_toml("[package]\nauthors = [\"Jane\", 2, true]\nkeywords = []\n");
    assert_eq!(metadata.authors, Some(strings(&["Jane", "", ""])));
    assert_eq!(metadata.keywords, Some(strings(&[])));
}

#[test]
fn a_field_of_the_wrong_type_is_left_out_or_left_empty() {
    let metadata = package_json(
        "{\"name\": 7, \"version\": [\"1\"], \"description\": false, \"author\": {\"name\": \"Jane\"}, \"license\": 3, \"keywords\": \"a\", \"dependencies\": [\"a\"], \"scripts\": \"x\"}",
    );
    assert_eq!(metadata, minimal("", ""));
    let metadata = cargo_toml(
        "package = \"none\"\ndependencies = [\"a\"]\n",
    );
    assert_eq!(metadata, minimal("", ""));
    let metadata = pyproject_toml("[project]\nname = 1\nversion = 2\nauthors = \"Jane\"\ndependencies = [\"requests\"]\n");
    assert_eq!(metadata, minimal("", ""));
}

#[test]
fn a_document_without_the_expected_fields_gives_an_empty_record() {
    assert_eq!(package_json("{}"), minimal("", ""));
    assert_eq!(package_json("[]"), minimal("", ""));
    assert_eq!(package_json("\"text\""), minimal("", ""));
    assert_eq!(deno_json("{}"), minimal("", ""));
    assert_eq!(cargo_toml(""), minimal("", ""));
    assert_eq!(cargo_toml("[workspace]\nmembers = []\n"), minimal("", ""));
    assert_eq!(pyproject_toml(""), minimal("", ""));
    assert_eq!(pyproject_toml("[tool.x]\ny = 1\n"), minimal("", ""));
}

#[test]
fn a_dependency_or_script_that_is_no_text_counts_as_empty() {
    let metadata = package_json(
        "{\"dependencies\": {\"a\": \"1\", \"b\": 2, \"c\": {\"version\": \"3\"}}, \"scripts\": {\"s\": null, \"t\": \"go\"}}",
    );
    assert_eq!(
        metadata.dependencies,
        Some(Dependencies::Simple(texts(&[("a", "1"), ("b", ""), ("c", "")])))
    );
    assert_eq!(metadata.scripts, Some(texts(&[("s", ""), ("t", "go")])));
}

#[test]
fn a_dependency_without_a_version_text_has_none() {
    let metadata = cargo_toml(
        "[dependencies]\na = \"1\"\nb = { version = 2 }\nc = { git = \"g\" }\nd = { version = \"4\" }\n",
    );
    assert_eq!(
        metadata.dependencies,
        Some(Dependencies::Detailed(details(&[
            ("a", None),
            ("b", None),
            ("c", None),
            ("d", Some("4")),
        ])))
    );
}

#[test]
fn empty_tables_are_present_and_empty() {
    let metadata = package_json("{\"dependencies\": {}, \"scripts\": {}, \"keywords\": []}");
    assert_eq!(metadata.dependencies, Some(Dependencies::Simple(texts(&[]))));
    assert_eq!(metadata.scripts, Some(texts(&[])));
    assert_eq!(metadata.keywords, Some(strings(&[])));
    let metadata = cargo_toml("[dependencies]\n");
    assert_eq!(metadata.dependencies, Some(Dependencies::Detailed(details(&[]))));
}

#[test]
fn simple_and_detailed_dependencies_are_never_equal() {
    let simple = Dependencies::Simple(texts(&[]));
    let detailed = Dependencies::Detailed(details(&[]));
    assert_ne!(simple, detailed);
    assert_eq!(simple.clone(), simple);
    assert_eq!(detailed.clone(), detailed);
}

#[test]
fn a_repeated_key_of_a_hand_made_document_counts_by_its_last_entry() {
    let tree = Tree::Table(vec![
        ("name".to_string(), Tree::Text("first".to_string())),
        (
            "scripts".to_string(),
            Tree::Table(vec![
                ("a".to_string(), Tree::Text("1".to_string())),
                ("b".to_string(), Tree::Text("2".to_string())),
                ("a".to_string(), Tree::Text("3".to_string())),
            ]),
        ),
        ("name".to_string(), Tree::Text("last".to_string())),
    ]);
    let metadata = ProjectMetadata::from_package_json(&tree);
    assert_eq!(metadata.name, "last");
    assert_eq!(metadata.scripts, Some(texts(&[("a", "3"), ("b", "2")])));
}

#[test]
fn entries_keep_the_order_of_the_document() {
    let tree = Tree::Table(vec![
        (
            "scripts".to_string(),
            Tree::Table(vec![
                ("test".to_string(), Tree::Text("t".to_string())),
                ("build".to_string(), Tree::Text("b".to_string())),
                ("test".to_string(), Tree::Text("again".to_string())),
                ("audit".to_string(), Tree::Other),
            ]),
        ),
        (
            "dependencies".to_string(),
            Tree::Table(vec![
                ("zeta".to_string(), Tree::Text("1".to_string())),
                ("alpha".to_string(), Tree::Text("2".to_string())),
            ]),
        ),
    ]);
    let metadata = ProjectMetadata::from_package_json(&tree);
    let scripts: Vec<(String, String)> = metadata.scripts.unwrap().entries().clone();
    assert_eq!(
        scripts,
        vec![
            ("test".to_string(), "again".to_string()),
            ("build".to_string(), "b".to_string()),
            ("audit".to_string(), "".to_string()),
        ]
    );
    match metadata.dependencies {
        Some(Dependencies::Simple(map)) => {
            let names: Vec<&str> = map.entries().iter().map(|e| e.0.as_str()).collect();
            assert_eq!(names, vec!["zeta", "alpha"]);
        }
        _ => panic!("expected simple dependencies"),
    }
    let cargo = Tree::Table(vec![(
        "dependencies".to_string(),
        Tree::Table(vec![
            ("zeta".to_string(), Tree::Other),
            ("alpha".to_string(), Tree::Other),
            ("zeta".to_string(), Tree::Table(vec![(
                "version".to_string(),
                Tree::Text("3".to_string()),
            )])),
        ]),
    )]);
    match ProjectMetadata::from_cargo_toml(&cargo).dependencies {
        Some(Dependencies::Detailed(map)) => {
            let entries: Vec<(&str, Option<&str>)> = map
                .entries()
                .iter()
                .map(|e| (e.0.as_str(), e.1.version.as_deref()))
                .collect();
            assert_eq!(entries, vec![("zeta", Some("3")), ("alpha", None)]);
        }
        _ => panic!("expected detailed dependencies"),
    }
}

#[test]
fn a_copy_of_a_record_keeps_the_order_of_its_entries() {
    let mut record = minimal("x", "1");
    record.scripts = Some(texts(&[("b", "2"), ("a", "1")]));
    let copy = record.clone();
    assert_eq!(copy, record);
    assert_eq!(copy.scripts.unwrap().entries(), record.scripts.unwrap().entries());
}

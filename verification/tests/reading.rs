use project_meta::document::Tree;
use project_meta::json_reader::read_json;
use project_meta::toml_reader::read_toml;

fn text_of(tree: &Tree) -> &str {
    match tree {
        Tree::Text(s) => s.as_str(),
        _ => panic!("expected a text"),
    }
}

#[test]
fn json_text_is_read_into_a_tree() {
    let tree = read_json("{\"name\": \"x\", \"n\": 1, \"list\": [\"a\", true, null]}").unwrap();
    assert_eq!(text_of(tree.get("name").unwrap()), "x");
    assert!(matches!(tree.get("n"), Some(Tree::Other)));
    match tree.get("list") {
        Some(Tree::List(items)) => {
            assert_eq!(items.len(), 3);
            assert_eq!(text_of(&items[0]), "a");
            assert!(matches!(items[1], Tree::Other));
            assert!(matches!(items[2], Tree::Other));
        }
        _ => panic!("expected a list"),
    }
    assert!(tree.get("missing").is_none());
}

#[test]
fn json_objects_nest() {
    let tree = read_json("{\"a\": {\"b\": {\"c\": \"deep\"}}}").unwrap();
    let c = tree.get("a").unwrap().get("b").unwrap().get("c").unwrap();
    assert_eq!(text_of(c), "deep");
}

#[test]
fn json_that_is_no_object_is_read_too() {
    assert!(matches!(read_json("\"alone\""), Some(Tree::Text(_))));
    assert!(matches!(read_json("[1, 2]"), Some(Tree::List(_))));
    assert!(matches!(read_json("17"), Some(Tree::Other)));
    assert!(matches!(read_json("null"), Some(Tree::Other)));
}

#[test]
fn a_repeated_json_key_counts_once() {
    let tree = read_json("{\"k\": \"first\", \"k\": \"last\"}").unwrap();
    match &tree {
        Tree::Table(entries) => assert_eq!(entries.len(), 1),
        _ => panic!("expected a table"),
    }
    assert_eq!(text_of(tree.get("k").unwrap()), "last");
}

#[test]
fn broken_json_is_refused() {
    assert!(read_json("{\"name\": ").is_none());
    assert!(read_json("").is_none());
    assert!(read_json("name = \"x\"").is_none());
}

#[test]
fn toml_text_is_read_into_a_tree() {
    let tree = read_toml(
        "title = \"t\"\ncount = 3\nflag = true\nlist = [\"a\", 1]\n\n[package]\nname = \"x\"\n",
    )
    .unwrap();
    assert_eq!(text_of(tree.get("title").unwrap()), "t");
    assert!(matches!(tree.get("count"), Some(Tree::Other)));
    assert!(matches!(tree.get("flag"), Some(Tree::Other)));
    match tree.get("list") {
        Some(Tree::List(items)) => {
            assert_eq!(items.len(), 2);
            assert_eq!(text_of(&items[0]), "a");
            assert!(matches!(items[1], Tree::Other));
        }
        _ => panic!("expected a list"),
    }
    let package = tree.get("package").unwrap();
    assert!(matches!(package, Tree::Table(_)));
    assert_eq!(text_of(package.get("name").unwrap()), "x");
}

#[test]
fn the_empty_text_is_an_empty_toml_table() {
    match read_toml("") {
        Some(Tree::Table(entries)) => assert!(entries.is_empty()),
        _ => panic!("expected a table"),
    }
}

#[test]
fn broken_toml_is_refused() {
    assert!(read_toml("[package\nname = \"x\"").is_none());
    assert!(read_toml("name = ").is_none());
    assert!(read_toml("{\"name\": \"x\"}").is_none());
}

#[test]
fn a_key_of_a_hand_made_table_stands_for_its_last_entry() {
    let tree = Tree::Table(vec![
        ("k".to_string(), Tree::Text("first".to_string())),
        ("other".to_string(), Tree::Other),
        ("k".to_string(), Tree::Text("last".to_string())),
    ]);
    assert_eq!(text_of(tree.get("k").unwrap()), "last");
    assert!(matches!(tree.get("other"), Some(Tree::Other)));
    assert!(tree.get("none").is_none());
}

#[test]
fn only_a_table_has_fields() {
    assert!(Tree::Text("name".to_string()).get("name").is_none());
    assert!(Tree::List(vec![Tree::Text("name".to_string())]).get("name").is_none());
    assert!(Tree::Other.get("name").is_none());
    assert!(Tree::child(None, "name").is_none());
}

#[test]
fn text_of_what_is_no_text_is_empty() {
    assert_eq!(Tree::Text("a".to_string()).text_or_empty(), "a");
    assert_eq!(Tree::Other.text_or_empty(), "");
    assert_eq!(Tree::List(vec![]).text_or_empty(), "");
    assert!(Tree::Other.as_text().is_none());
    assert_eq!(Tree::Text("a".to_string()).as_text().unwrap(), "a");
}

#[test]
fn json_and_toml_of_the_same_content_give_the_same_tree() {
    let json = read_json("{\"name\": \"x\", \"list\": [\"a\", \"b\"], \"t\": {\"k\": \"v\"}}").unwrap();
    let toml = read_toml("name = \"x\"\nlist = [\"a\", \"b\"]\n\n[t]\nk = \"v\"\n").unwrap();
    assert_eq!(json.get("name"), toml.get("name"));
    assert_eq!(json.get("list"), toml.get("list"));
    assert_eq!(json.get("t"), toml.get("t"));
    assert_eq!(
        json.get("list"),
        Some(&Tree::List(vec![Tree::Text("a".to_string()), Tree::Text("b".to_string())]))
    );
    assert_eq!(
        toml.get("t"),
        Some(&Tree::Table(vec![("k".to_string(), Tree::Text("v".to_string()))]))
    );
}

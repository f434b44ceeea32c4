use rustis::db::{encode_entries, import, Database, LoadOutcome, StoreError};
use serde_json::Value;

fn doc(text: &str) -> Value {
    serde_json::from_str(text).expect("a JSON document")
}

fn key(name: &str) -> String {
    String::from(name)
}

#[test]
fn new_store_is_empty() {
    let db = Database::new();
    assert_eq!(db.get(&key("a")), None);
    assert!(db.entries().is_empty());
}

#[test]
fn insert_creates_then_overwrites() {
    let mut db = Database::new();
    assert_eq!(db.insert(key("a"), doc("1")), None);
    assert_eq!(db.get(&key("a")), Some(doc("1")));
    assert_eq!(db.insert(key("a"), doc("[2,3]")), Some(doc("1")));
    assert_eq!(db.get(&key("a")), Some(doc("[2,3]")));
    assert_eq!(db.entries().len(), 1);
}

#[test]
fn get_of_absent_key_is_none() {
    let mut db = Database::new();
    db.insert(key("a"), doc("true"));
    assert_eq!(db.get(&key("b")), None);
    assert_eq!(db.get(&key("")), None);
}

#[test]
fn update_of_absent_key_is_not_found() {
    let mut db = Database::new();
    assert_eq!(db.update(key("ghost"), doc("1")), Err(StoreError::KeyNotFound));
    assert_eq!(db.get(&key("ghost")), None);
    assert!(db.entries().is_empty());
}

#[test]
fn update_of_held_key_replaces() {
    let mut db = Database::new();
    db.insert(key("a"), doc("{\"x\":1}"));
    db.insert(key("b"), doc("\"keep\""));
    assert_eq!(db.update(key("a"), doc("{\"x\":2}")), Ok(doc("{\"x\":2}")));
    assert_eq!(db.get(&key("a")), Some(doc("{\"x\":2}")));
    assert_eq!(db.get(&key("b")), Some(doc("\"keep\"")));
}

#[test]
fn delete_returns_the_entry() {
    let mut db = Database::new();
    db.insert(key("a"), doc("null"));
    db.insert(key("b"), doc("7"));
    assert_eq!(db.delete(key("a")), Some((key("a"), Value::Null)));
    assert_eq!(db.get(&key("a")), None);
    assert_eq!(db.get(&key("b")), Some(doc("7")));
}

#[test]
fn delete_of_absent_key_changes_nothing() {
    let mut db = Database::new();
    db.insert(key("b"), doc("7"));
    assert_eq!(db.delete(key("a")), None);
    assert_eq!(db.entries(), vec![(key("b"), doc("7"))]);
}

#[test]
fn same_key_last_writer_wins() {
    let mut db = Database::new();
    assert_eq!(db.insert(key("k"), doc("\"v1\"")), None);
    assert_eq!(db.insert(key("k"), doc("\"v2\"")), Some(doc("\"v1\"")));
    assert_eq!(db.get(&key("k")), Some(doc("\"v2\"")));

    let mut other = Database::new();
    assert_eq!(other.insert(key("k"), doc("\"v2\"")), None);
    assert_eq!(other.insert(key("k"), doc("\"v1\"")), Some(doc("\"v2\"")));
    assert_eq!(other.get(&key("k")), Some(doc("\"v1\"")));
}

#[test]
fn distinct_keys_do_not_interfere() {
    let mut one = Database::new();
    one.insert(key("k1"), doc("1"));
    one.insert(key("k2"), doc("2"));
    let mut two = Database::new();
    two.insert(key("k2"), doc("2"));
    two.insert(key("k1"), doc("1"));
    assert_eq!(one.get(&key("k1")), two.get(&key("k1")));
    assert_eq!(one.get(&key("k2")), two.get(&key("k2")));
    one.delete(key("k1"));
    assert_eq!(one.get(&key("k2")), Some(doc("2")));
    assert_eq!(one.update(key("k2"), doc("3")), Ok(doc("3")));
    assert_eq!(one.get(&key("k1")), None);
}

#[test]
fn encode_gives_the_exact_text() {
    let entries = vec![(key("a"), doc("{\"x\":1}")), (key("b"), doc("[true,null,\"s\"]"))];
    assert_eq!(
        encode_entries(&entries),
        Ok(String::from("[[\"a\",{\"x\":1}],[\"b\",[true,null,\"s\"]]]"))
    );
    assert_eq!(encode_entries(&Vec::new()), Ok(String::from("[]")));
}

#[test]
fn import_gives_the_entries_in_order() {
    let entries = import("[[\"b\", 2], [\"a\", {\"x\": [1, 2.5, \"s\", false, null]}]]");
    assert_eq!(
        entries,
        Ok(vec![(key("b"), doc("2")), (key("a"), doc("{\"x\":[1,2.5,\"s\",false,null]}"))])
    );
    assert_eq!(import("[]"), Ok(Vec::new()));
}

#[test]
fn import_of_malformed_text_is_a_parse_error() {
    assert_eq!(import("not json"), Err(StoreError::Parse));
    assert_eq!(import("[[\"a\", 1]"), Err(StoreError::Parse));
    assert_eq!(import("{\"a\": 1}"), Err(StoreError::Parse));
    assert_eq!(import("[[1, 2]]"), Err(StoreError::Parse));
    assert_eq!(import(""), Err(StoreError::Parse));
}

#[test]
fn export_of_one_entry_is_exact() {
    let mut db = Database::new();
    db.insert(key("a"), doc("{\"x\":1}"));
    let snapshot = db.export().expect("an export");
    assert_eq!(snapshot.document, "[[\"a\",{\"x\":1}]]");
    assert_eq!(snapshot.count, 1);
}

#[test]
fn export_of_empty_store() {
    let db = Database::new();
    let snapshot = db.export().expect("an export");
    assert_eq!(snapshot.document, "[]");
    assert_eq!(snapshot.count, 0);
}

#[test]
fn round_trip_keeps_every_entry() {
    let mut db = Database::new();
    db.insert(key("obj"), doc("{\"a\":{\"b\":[1,2,{\"c\":null}]},\"d\":\"text\"}"));
    db.insert(key("arr"), doc("[1,-2,3.5,\"four\",true,false,null,[],{}]"));
    db.insert(key("num"), doc("42"));
    db.insert(key("str"), doc("\"with \\\"quotes\\\" and \\n\""));
    db.insert(key("bool"), doc("false"));
    db.insert(key("null"), doc("null"));
    db.insert(key(""), doc("0"));
    let snapshot = db.export().expect("an export");
    assert_eq!(snapshot.count, 7);

    let mut restored = Database::new();
    assert_eq!(restored.load_snapshot(Some(snapshot.document.as_str())), LoadOutcome::Loaded(7));
    let mut before = db.entries();
    let mut after = restored.entries();
    before.sort_by(|a, b| a.0.cmp(&b.0));
    after.sort_by(|a, b| a.0.cmp(&b.0));
    assert_eq!(before, after);
    assert_eq!(restored.get(&key("arr")), Some(doc("[1,-2,3.5,\"four\",true,false,null,[],{}]")));
}

#[test]
fn cold_start_without_target() {
    let mut db = Database::new();
    assert_eq!(db.load_snapshot(None), LoadOutcome::Missing);
    assert!(db.entries().is_empty());
    assert_eq!(db.insert(key("a"), doc("1")), None);
}

#[test]
fn cold_start_with_empty_target() {
    let mut db = Database::new();
    assert_eq!(db.load_snapshot(Some("")), LoadOutcome::Empty);
    assert!(db.entries().is_empty());
}

#[test]
fn malformed_snapshot_leaves_store_empty() {
    let mut db = Database::new();
    assert_eq!(db.load_snapshot(Some("[[\"a\", {\"x\": 1}], [\"b\"")), LoadOutcome::Malformed);
    assert!(db.entries().is_empty());
    assert_eq!(db.get(&key("a")), None);
}

#[test]
fn malformed_snapshot_leaves_store_as_it_was() {
    let mut db = Database::new();
    db.insert(key("kept"), doc("1"));
    assert_eq!(db.load_snapshot(Some("{")), LoadOutcome::Malformed);
    assert_eq!(db.entries(), vec![(key("kept"), doc("1"))]);
}

#[test]
fn load_installs_later_entry_of_a_repeated_key() {
    let mut db = Database::new();
    db.insert(key("old"), doc("0"));
    assert_eq!(
        db.load_snapshot(Some("[[\"a\",1],[\"b\",2],[\"a\",3]]")),
        LoadOutcome::Loaded(3)
    );
    assert_eq!(db.get(&key("a")), Some(doc("3")));
    assert_eq!(db.get(&key("b")), Some(doc("2")));
    assert_eq!(db.get(&key("old")), Some(doc("0")));
    assert_eq!(db.entries().len(), 3);
}

#[test]
fn install_copies_each_document() {
    let entries = vec![(key("a"), doc("{\"x\":1}")), (key("b"), doc("[1]"))];
    let mut db = Database::new();
    db.install(&entries);
    assert_eq!(db.get(&key("a")), Some(doc("{\"x\":1}")));
    assert_eq!(db.get(&key("b")), Some(doc("[1]")));
    assert_eq!(entries.len(), 2);
}

#[test]
fn shutdown_export_reloads() {
    let mut db = Database::new();
    db.insert(key("a"), doc("{\"x\":1}"));
    let primary = db.export().expect("an export").document;

    let mut reloaded = Database::new();
    assert_eq!(reloaded.load_snapshot(Some(primary.as_str())), LoadOutcome::Loaded(1));
    assert_eq!(reloaded.get(&key("a")), Some(doc("{\"x\":1}")));
}

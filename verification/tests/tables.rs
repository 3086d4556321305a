use entity_client::StringTable;

#[test]
fn a_new_table_is_empty() {
    let table: StringTable<u32> = StringTable::new();
    assert_eq!(table.len(), 0);
    assert_eq!(table.get("a"), None);
    assert!(!table.contains_key("a"));
    assert!(table.keys().is_empty());
}

#[test]
fn insert_then_get() {
    let mut table = StringTable::new();
    table.insert("a".to_string(), 1u32);
    table.insert("b".to_string(), 2u32);
    assert_eq!(table.len(), 2);
    assert_eq!(table.get("a"), Some(&1));
    assert_eq!(table.get("b"), Some(&2));
    assert_eq!(table.get("c"), None);
    assert!(table.contains_key("b"));
}

#[test]
fn insert_replaces_the_value_of_a_key() {
    let mut table = StringTable::new();
    table.insert("a".to_string(), 1u32);
    table.insert("b".to_string(), 2u32);
    table.insert("a".to_string(), 3u32);
    assert_eq!(table.len(), 2);
    assert_eq!(table.get("a"), Some(&3));
    assert_eq!(table.get("b"), Some(&2));
}

#[test]
fn remove_takes_one_key_out() {
    let mut table = StringTable::new();
    table.insert("a".to_string(), 1u32);
    table.insert("b".to_string(), 2u32);
    table.insert("c".to_string(), 3u32);
    assert_eq!(table.remove("b"), Some(2));
    assert_eq!(table.remove("b"), None);
    assert_eq!(table.len(), 2);
    assert_eq!(table.get("a"), Some(&1));
    assert_eq!(table.get("b"), None);
    assert_eq!(table.get("c"), Some(&3));
}

#[test]
fn keys_lists_each_key_once() {
    let mut table = StringTable::new();
    table.insert("x".to_string(), 1u32);
    table.insert("y".to_string(), 2u32);
    table.insert("x".to_string(), 3u32);
    let mut keys = table.keys();
    keys.sort();
    assert_eq!(keys, vec!["x".to_string(), "y".to_string()]);
}

#[test]
fn keys_differ_by_case_and_by_every_character() {
    let mut table = StringTable::new();
    table.insert("Key".to_string(), 1u32);
    table.insert("key".to_string(), 2u32);
    table.insert("".to_string(), 3u32);
    assert_eq!(table.len(), 3);
    assert_eq!(table.get("Key"), Some(&1));
    assert_eq!(table.get("key"), Some(&2));
    assert_eq!(table.get(""), Some(&3));
    assert_eq!(table.get("ke"), None);
}

#[test]
fn a_clone_holds_the_same_entries() {
    let mut table = StringTable::new();
    table.insert("a".to_string(), "one".to_string());
    table.insert("b".to_string(), "two".to_string());
    let copy = table.clone();
    table.insert("a".to_string(), "changed".to_string());
    assert_eq!(copy.len(), 2);
    assert_eq!(copy.get("a"), Some(&"one".to_string()));
    assert_eq!(copy.get("b"), Some(&"two".to_string()));
}

use flagship::string_map::StringMap;
use flagship::text::{hyphenate, join};
use flagship::yaml::{empty_mapping, single_entry};
use serde_yaml::{Mapping, Value};

#[test]
fn join_of_nothing_is_empty() {
    assert_eq!(join(&Vec::new(), "-"), "");
}

#[test]
fn join_of_one_part_is_the_part() {
    assert_eq!(join(&vec!["example".to_string()], "-"), "example");
}

#[test]
fn join_puts_the_separator_between_neighbours() {
    let parts = vec!["a".to_string(), "b".to_string(), "c".to_string()];
    assert_eq!(join(&parts, "-"), "a-b-c");
    assert_eq!(join(&parts, ", "), "a, b, c");
    assert_eq!(join(&parts, ""), "abc");
}

#[test]
fn join_keeps_empty_parts() {
    let parts = vec!["".to_string(), "b".to_string(), "".to_string()];
    assert_eq!(join(&parts, "-"), "-b-");
}

#[test]
fn hyphenate_joins_two_parts() {
    assert_eq!(hyphenate("example", "db"), "example-db");
    assert_eq!(hyphenate("", ""), "-");
}

#[test]
fn string_map_keeps_first_places_and_last_values() {
    let mut map: StringMap<u32> = StringMap::new();
    assert!(map.is_empty());
    assert_eq!(map.len(), 0);
    map.insert("one".into(), 1);
    map.insert("two".into(), 2);
    map.insert("one".into(), 11);
    assert!(!map.is_empty());
    assert_eq!(map.len(), 2);
    assert_eq!(map.key_at(0), "one");
    assert_eq!(*map.value_at(0), 11);
    assert_eq!(map.key_at(1), "two");
    assert_eq!(*map.value_at(1), 2);
    assert_eq!(map.get("one"), Some(&11));
    assert_eq!(map.get("two"), Some(&2));
    assert_eq!(map.get("three"), None);
    assert_eq!(map.get(""), None);
}

#[test]
fn single_entry_is_a_mapping_of_one_string_key() {
    let built = single_entry("name", Value::String("example".into()));
    let mut expected = Mapping::new();
    expected.insert(Value::String("name".into()), Value::String("example".into()));
    assert_eq!(built, Value::Mapping(expected));
    assert_ne!(built, Value::String("example".into()));
}

#[test]
fn single_entries_nest() {
    let built = single_entry("outer", single_entry("inner", Value::Bool(true)));
    let mut inner = Mapping::new();
    inner.insert(Value::String("inner".into()), Value::Bool(true));
    let mut outer = Mapping::new();
    outer.insert(Value::String("outer".into()), Value::Mapping(inner));
    assert_eq!(built, Value::Mapping(outer));
}

#[test]
fn empty_mapping_has_no_entries() {
    assert_eq!(empty_mapping(), Value::Mapping(Mapping::new()));
}

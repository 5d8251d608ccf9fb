use honeybadger_middleware::fields::FieldMap;

fn pair(key: &str, value: &str) -> (String, String) {
    (key.to_string(), value.to_string())
}

#[test]
fn new_map_is_empty() {
    let map = FieldMap::new();
    assert_eq!(map.len(), 0);
    assert!(map.is_empty());
    assert!(map.get("a").is_none());
    assert!(!map.contains_key("a"));
    assert!(map.entries().is_empty());
}

#[test]
fn inserted_values_are_found() {
    let mut map = FieldMap::new();
    map.insert("status".to_string(), "failed".to_string());
    map.insert("id".to_string(), "42".to_string());
    assert_eq!(map.len(), 2);
    assert!(!map.is_empty());
    assert_eq!(map.get("status").map(|v| v.as_str()), Some("failed"));
    assert_eq!(map.get("id").map(|v| v.as_str()), Some("42"));
    assert!(map.get("other").is_none());
    assert!(map.contains_key("id"));
    assert!(!map.contains_key("ID"));
}

#[test]
fn inserting_under_a_key_again_replaces_the_value() {
    let mut map = FieldMap::new();
    map.insert("a".to_string(), "1".to_string());
    map.insert("b".to_string(), "2".to_string());
    map.insert("a".to_string(), "3".to_string());
    assert_eq!(map.len(), 2);
    assert_eq!(map.get("a").map(|v| v.as_str()), Some("3"));
    assert_eq!(map.get("b").map(|v| v.as_str()), Some("2"));
    assert_eq!(map.entries(), &vec![pair("a", "3"), pair("b", "2")]);
}

#[test]
fn from_pairs_keeps_the_last_value_of_a_key() {
    let pairs = vec![pair("k", "first"), pair("other", "x"), pair("k", "last")];
    let map = FieldMap::from_pairs(&pairs);
    assert_eq!(map.len(), 2);
    assert_eq!(map.get("k").map(|v| v.as_str()), Some("last"));
    assert_eq!(map.get("other").map(|v| v.as_str()), Some("x"));
}

#[test]
fn from_no_pairs_is_empty() {
    let map = FieldMap::from_pairs(&Vec::new());
    assert!(map.is_empty());
}

#[test]
fn entries_hold_no_key_twice() {
    let pairs = vec![pair("a", "1"), pair("a", "2"), pair("a", "3"), pair("", "e"), pair("", "f")];
    let map = FieldMap::from_pairs(&pairs);
    assert_eq!(map.entries(), &vec![pair("a", "3"), pair("", "f")]);
    assert_eq!(map.get("").map(|v| v.as_str()), Some("f"));
}

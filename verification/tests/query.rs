use honeybadger_middleware::query::{params_from, parse_params};

fn value<'a>(map: &'a honeybadger_middleware::fields::FieldMap, key: &str) -> Option<&'a str> {
    map.get(key).map(|v| v.as_str())
}

#[test]
fn query_pairs_become_params() {
    let params = parse_params(Some("status=failed&id=42"));
    assert_eq!(params.len(), 2);
    assert_eq!(value(&params, "status"), Some("failed"));
    assert_eq!(value(&params, "id"), Some("42"));
}

#[test]
fn no_query_gives_no_params() {
    let params = parse_params(None);
    assert!(params.is_empty());
    assert_eq!(params.len(), 0);
}

#[test]
fn empty_query_gives_no_params() {
    assert!(parse_params(Some("")).is_empty());
}

#[test]
fn escapes_and_plus_signs_are_decoded() {
    let params = parse_params(Some("q=caf%C3%A9+au+lait&a%20b=c%3Dd"));
    assert_eq!(params.len(), 2);
    assert_eq!(value(&params, "q"), Some("caf\u{e9} au lait"));
    assert_eq!(value(&params, "a b"), Some("c=d"));
    assert!(!params.contains_key("a%20b"));
}

#[test]
fn repeated_key_keeps_its_last_value() {
    let params = parse_params(Some("a=1&b=2&a=3"));
    assert_eq!(params.len(), 2);
    assert_eq!(value(&params, "a"), Some("3"));
    assert_eq!(value(&params, "b"), Some("2"));
}

#[test]
fn key_without_value_has_the_empty_value() {
    let params = parse_params(Some("flag&x="));
    assert_eq!(value(&params, "flag"), Some(""));
    assert_eq!(value(&params, "x"), Some(""));
}

#[test]
fn malformed_query_never_fails() {
    for query in ["%", "%zz=%", "&&&", "=", "a=%ff%fe", "a==b&=c", "\u{0}"] {
        let params = parse_params(Some(query));
        assert!(params.len() <= 2, "query {:?}", query);
    }
}

#[test]
fn malformed_escape_is_kept_as_text() {
    let params = parse_params(Some("a=100%&b=%zz"));
    assert_eq!(value(&params, "a"), Some("100%"));
    assert_eq!(value(&params, "b"), Some("%zz"));
}

#[test]
fn nothing_decoded_gives_no_params() {
    assert!(params_from(&None).is_empty());
}

#[test]
fn decoded_pairs_are_taken_in_their_order() {
    let decoded = Some(vec![
        ("a".to_string(), "1".to_string()),
        ("b".to_string(), "2".to_string()),
        ("a".to_string(), "3".to_string()),
    ]);
    let params = params_from(&decoded);
    assert_eq!(params.len(), 2);
    assert_eq!(value(&params, "a"), Some("3"));
    assert_eq!(value(&params, "b"), Some("2"));
}

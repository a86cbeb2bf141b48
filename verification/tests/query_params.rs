use novacl_core::server::params::QueryParams;

fn pair(key: &str, value: &str) -> (String, String) {
    (key.to_string(), value.to_string())
}

#[test]
fn empty_params() {
    let params = QueryParams::new();
    assert_eq!(params.len(), 0);
    assert_eq!(params.get("code"), None);
    assert!(!params.contains_key("code"));
    assert!(params.to_pairs().is_empty());
}

#[test]
fn insert_replaces_value_of_same_key() {
    let mut params = QueryParams::new();
    params.insert("a".to_string(), "1".to_string());
    params.insert("b".to_string(), "2".to_string());
    params.insert("a".to_string(), "3".to_string());
    assert_eq!(params.len(), 2);
    assert_eq!(params.get("a"), Some("3"));
    assert_eq!(params.get("b"), Some("2"));
    assert!(params.contains_key("a"));
    assert!(!params.contains_key("c"));
}

#[test]
fn from_pairs_last_wins() {
    let params = QueryParams::from_pairs(vec![
        pair("code", "A"),
        pair("state", "S"),
        pair("code", "B"),
        pair("code", "C"),
    ]);
    assert_eq!(params.len(), 2);
    assert_eq!(params.get("code"), Some("C"));
    assert_eq!(params.get("state"), Some("S"));
    let mut pairs = params.to_pairs();
    pairs.sort();
    assert_eq!(pairs, vec![pair("code", "C"), pair("state", "S")]);
}

#[test]
fn keys_are_compared_exactly() {
    let params = QueryParams::from_pairs(vec![pair("Code", "A"), pair("code", "B"), pair("", "C")]);
    assert_eq!(params.len(), 3);
    assert_eq!(params.get("Code"), Some("A"));
    assert_eq!(params.get("code"), Some("B"));
    assert_eq!(params.get(""), Some("C"));
}

#[test]
fn parse_decodes_and_resolves_duplicates() {
    let params = QueryParams::parse("code=A&code=B&state=x%2Fy&empty=&flag").unwrap();
    assert_eq!(params.get("code"), Some("B"));
    assert_eq!(params.get("state"), Some("x/y"));
    assert_eq!(params.get("empty"), Some(""));
    assert_eq!(params.get("flag"), Some(""));
    assert_eq!(params.len(), 4);
    assert_eq!(QueryParams::parse("").unwrap().len(), 0);
    assert!(QueryParams::parse("a b").is_none());
}

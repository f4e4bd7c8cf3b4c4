use osai::json::{JsonMap, JsonValue, NamedMap};

fn text(v: Option<&JsonValue>) -> Option<String> {
    v.and_then(|x| x.as_str()).map(|s| s.to_string())
}

#[test]
fn reading_after_storing_gives_the_value() {
    let mut m = JsonMap::new();
    assert_eq!(m.len(), 0);
    m.insert("path".to_string(), JsonValue::Str("/tmp".to_string()));
    m.insert("mode".to_string(), JsonValue::Bool(true));
    assert_eq!(text(m.get("path")), Some("/tmp".to_string()));
    assert!(matches!(m.get("mode"), Some(JsonValue::Bool(true))));
    assert!(m.get("missing").is_none());
    m.insert("path".to_string(), JsonValue::Str("/home".to_string()));
    assert_eq!(m.len(), 2);
    assert_eq!(text(m.get("path")), Some("/home".to_string()));
    assert_eq!(m.position("mode"), Some(1));
    assert!(m.contains_key("path"));
    assert!(!m.contains_key("Path"));
}

#[test]
fn named_maps_keep_names_distinct() {
    let mut m: NamedMap<u32> = NamedMap::new();
    assert!(m.is_empty());
    m.insert("a".to_string(), 1);
    m.insert("b".to_string(), 2);
    m.insert("a".to_string(), 3);
    assert_eq!(m.len(), 2);
    assert_eq!(m.get("a"), Some(&3));
    assert_eq!(m.get("b"), Some(&2));
    assert_eq!(m.entries[0].0, "a");
}

#[test]
fn values_report_their_kind() {
    assert_eq!(JsonValue::Bool(false).as_bool(), Some(false));
    assert_eq!(JsonValue::Null.as_bool(), None);
    assert_eq!(JsonValue::Str("x".to_string()).as_str(), Some("x"));
    assert_eq!(JsonValue::Number("1".to_string()).as_str(), None);
    let v = JsonValue::Array(vec![JsonValue::Str("x".to_string())]);
    match v.copy_value() {
        JsonValue::Array(xs) => assert_eq!(xs[0].as_str(), Some("x")),
        _ => panic!("a copy keeps the kind"),
    }
}

use mcpg_operator_api::json::{JsonMap, JsonValue};
use mcpg_operator_api::string_map::StrMap;
use mcpg_operator_api::schema_helpers::{
    int_or_string_schema, preserve_array_of_objects_schema, preserve_object_schema,
};

fn str_at<'a>(v: &'a JsonValue, key: &str) -> Option<&'a str> {
    v.get(key).and_then(|x| x.as_str())
}

#[test]
fn preserve_object_emits_xkube_extension() {
    let v = preserve_object_schema();
    assert_eq!(str_at(&v, "type"), Some("object"));
    assert_eq!(
        v.get("x-kubernetes-preserve-unknown-fields").and_then(|x| x.as_bool()),
        Some(true)
    );
}

#[test]
fn preserve_array_of_objects_marks_items() {
    let v = preserve_array_of_objects_schema();
    assert_eq!(str_at(&v, "type"), Some("array"));
    let items = v.get("items").unwrap();
    assert_eq!(str_at(items, "type"), Some("object"));
    assert_eq!(
        items.get("x-kubernetes-preserve-unknown-fields").and_then(|x| x.as_bool()),
        Some(true)
    );
}

#[test]
fn int_or_string_emits_only_xkube_extension() {
    let v = int_or_string_schema();
    assert_eq!(
        v.get("x-kubernetes-int-or-string").and_then(|x| x.as_bool()),
        Some(true)
    );
    assert_eq!(v.as_object().unwrap().len(), 1);
}

#[test]
fn json_map_insert_replaces_in_place() {
    let mut m = JsonMap::new();
    m.insert("a".into(), JsonValue::Bool(true));
    m.insert("b".into(), JsonValue::Null);
    m.insert("a".into(), JsonValue::Number("2".into()));
    assert_eq!(m.len(), 2);
    assert_eq!(m.key_at(0), "a");
    assert_eq!(m.value_at(0), &JsonValue::Number("2".into()));
    assert_eq!(m.get("b"), Some(&JsonValue::Null));
    assert!(m.get("c").is_none());
    let copy = JsonValue::Object(m.clone());
    assert_eq!(copy, JsonValue::Object(m));
}

#[test]
fn json_accessors_reject_other_kinds() {
    let v = JsonValue::Array(vec![JsonValue::Bool(false)]);
    assert_eq!(v.as_bool(), None);
    assert_eq!(v.as_str(), None);
    assert!(v.get("x").is_none());
    assert_eq!(v.as_array().map(|a| a.len()), Some(1));
    assert_eq!(JsonValue::from_str("x").as_str(), Some("x"));
}

#[test]
fn objects_compare_as_maps() {
    let mut a = JsonMap::new();
    a.insert("url".to_string(), JsonValue::String("rediss://r:6379".to_string()));
    a.insert("keyPrefix".to_string(), JsonValue::String("mcpg".to_string()));
    let mut b = JsonMap::new();
    b.insert("keyPrefix".to_string(), JsonValue::String("mcpg".to_string()));
    b.insert("url".to_string(), JsonValue::String("rediss://r:6379".to_string()));
    assert!(a == b);
    assert!(a.same_bindings(&b));
    assert_eq!(JsonValue::Object(a.clone()), JsonValue::Object(b.clone()));

    let mut c = b.clone();
    c.insert("url".to_string(), JsonValue::String("redis://r:6379".to_string()));
    assert!(a != c);
    let mut d = b.clone();
    d.insert("extra".to_string(), JsonValue::Null);
    assert!(a != d);
}

#[test]
fn nested_documents_compare_by_content() {
    let mut inner1 = JsonMap::new();
    inner1.insert("require_tls".to_string(), JsonValue::Bool(false));
    inner1.insert("ca".to_string(), JsonValue::Number("1".to_string()));
    let mut inner2 = JsonMap::new();
    inner2.insert("ca".to_string(), JsonValue::Number("1".to_string()));
    inner2.insert("require_tls".to_string(), JsonValue::Bool(false));
    let x = JsonValue::Array(vec![JsonValue::Object(inner1), JsonValue::Null]);
    let y = JsonValue::Array(vec![JsonValue::Object(inner2), JsonValue::Null]);
    assert!(x.same_document(&y));
    assert_eq!(x, y);
    let z = JsonValue::Array(vec![JsonValue::Null, JsonValue::Null]);
    assert!(!x.same_document(&z));
}

#[test]
fn string_maps_compare_as_maps() {
    let mut a: StrMap<String> = StrMap::new();
    a.insert("tenant".to_string(), "acme".to_string());
    a.insert("tier".to_string(), "gold".to_string());
    let mut b: StrMap<String> = StrMap::new();
    b.insert("tier".to_string(), "gold".to_string());
    b.insert("tenant".to_string(), "acme".to_string());
    assert!(a == b);
    b.insert("tier".to_string(), "silver".to_string());
    assert!(a != b);

    let mut g: StrMap<Vec<String>> = StrMap::new();
    g.insert("p1".to_string(), vec!["audit".to_string()]);
    g.insert("p2".to_string(), vec![]);
    let mut h: StrMap<Vec<String>> = StrMap::new();
    h.insert("p2".to_string(), vec![]);
    h.insert("p1".to_string(), vec!["audit".to_string()]);
    assert!(g == h);
    h.insert("p2".to_string(), vec!["x".to_string()]);
    assert!(g != h);
}

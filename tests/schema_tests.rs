use ai_agent::schema::normalize_schema;
use serde_json::Value;

fn empty_object() -> Value {
    Value::Object(serde_json::Map::new())
}

fn required_set(schema: &serde_json::Map<String, Value>) -> Vec<String> {
    let mut names: Vec<String> = schema
        .get("required")
        .and_then(|v| v.as_array())
        .expect("a required list")
        .iter()
        .map(|v| v.as_str().expect("a text").to_string())
        .collect();
    names.sort();
    names
}

#[test]
fn normalize_two_properties() {
    let mut props = serde_json::Map::new();
    props.insert("a".to_string(), empty_object());
    props.insert("b".to_string(), empty_object());
    let mut schema = serde_json::Map::new();
    schema.insert("properties".to_string(), Value::Object(props.clone()));
    normalize_schema(&mut schema);
    assert_eq!(required_set(&schema), vec!["a".to_string(), "b".to_string()]);
    assert_eq!(schema.get("properties"), Some(&Value::Object(props)));
    assert_eq!(schema.len(), 2);
}

#[test]
fn normalize_replaces_partial_required_list() {
    let mut props = serde_json::Map::new();
    props.insert("query".to_string(), empty_object());
    props.insert("limit".to_string(), empty_object());
    let mut schema = serde_json::Map::new();
    schema.insert("type".to_string(), Value::String("object".to_string()));
    schema.insert("properties".to_string(), Value::Object(props));
    schema.insert("required".to_string(), Value::from(vec!["query".to_string()]));
    normalize_schema(&mut schema);
    assert_eq!(required_set(&schema), vec!["limit".to_string(), "query".to_string()]);
    assert_eq!(schema.get("type"), Some(&Value::String("object".to_string())));
}

#[test]
fn normalize_empty_properties_requires_nothing() {
    let mut schema = serde_json::Map::new();
    schema.insert("properties".to_string(), empty_object());
    normalize_schema(&mut schema);
    assert!(required_set(&schema).is_empty());
}

#[test]
fn normalize_without_properties_leaves_schema() {
    let mut schema = serde_json::Map::new();
    schema.insert("type".to_string(), Value::String("object".to_string()));
    let before = schema.clone();
    normalize_schema(&mut schema);
    assert_eq!(schema, before);
}

#[test]
fn normalize_properties_not_an_object_leaves_schema() {
    let mut schema = serde_json::Map::new();
    schema.insert("properties".to_string(), Value::String("a".to_string()));
    let before = schema.clone();
    normalize_schema(&mut schema);
    assert_eq!(schema, before);
}

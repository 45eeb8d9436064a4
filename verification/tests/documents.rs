use mongo_crud::database::document::{StageDocument, Value};

fn doc(entries: Vec<(&str, Value)>) -> StageDocument {
    let mut document = StageDocument::new();
    for (key, value) in entries {
        document.insert(key.to_string(), value);
    }
    document
}

fn keys(document: &StageDocument) -> Vec<String> {
    document.entries().iter().map(|entry| entry.0.clone()).collect()
}

#[test]
fn new_document_is_empty() {
    let document = StageDocument::new();
    assert!(document.entries().is_empty());
    assert_eq!(document.get("a"), None);
}

#[test]
fn single_holds_one_field() {
    let document = StageDocument::single("a", Value::Int32(1));
    assert_eq!(document.entries(), &vec![("a".to_string(), Value::Int32(1))]);
    assert_eq!(document.get("a"), Some(&Value::Int32(1)));
    assert_eq!(document, doc(vec![("a", Value::Int32(1))]));
}

#[test]
fn insert_appends_new_names_in_order() {
    let mut document = StageDocument::new();
    assert_eq!(document.insert("b".to_string(), Value::Int32(1)), None);
    assert_eq!(document.insert("a".to_string(), Value::Int32(2)), None);
    assert_eq!(document.insert("c".to_string(), Value::Null), None);
    assert_eq!(keys(&document), vec!["b", "a", "c"]);
    assert_eq!(document.get("a"), Some(&Value::Int32(2)));
    assert_eq!(document.get("d"), None);
}

#[test]
fn insert_replaces_in_place_and_returns_the_old_value() {
    let mut document = doc(vec![
        ("a", Value::Int32(1)),
        ("b", Value::Int32(2)),
        ("c", Value::Int32(3)),
    ]);
    assert_eq!(document.insert("b".to_string(), Value::text("two")), Some(Value::Int32(2)));
    assert_eq!(keys(&document), vec!["a", "b", "c"]);
    assert_eq!(document.get("b"), Some(&Value::Text("two".to_string())));
    assert_eq!(document.get("a"), Some(&Value::Int32(1)));
    assert_eq!(document.get("c"), Some(&Value::Int32(3)));
    assert_eq!(document.entries().len(), 3);
}

#[test]
fn from_u64_picks_the_narrowest_integer() {
    assert_eq!(Value::from_u64(0), Value::Int32(0));
    assert_eq!(Value::from_u64(1_700_000_000), Value::Int32(1_700_000_000));
    assert_eq!(Value::from_u64(2_147_483_647), Value::Int32(2_147_483_647));
    assert_eq!(Value::from_u64(2_147_483_648), Value::Int64(2_147_483_648));
    assert_eq!(Value::from_u64(4_294_967_295), Value::Int64(4_294_967_295));
    assert_eq!(Value::from_u64(4_294_967_296), Value::Int64(4_294_967_296));
    assert_eq!(Value::from_u64(i64::MAX as u64), Value::Int64(i64::MAX));
}

#[test]
fn value_makers_build_what_they_say() {
    assert_eq!(Value::text("abc"), Value::Text("abc".to_string()));
    assert_eq!(Value::array1(Value::Null), Value::Array(vec![Value::Null]));
    assert_eq!(
        Value::array2(Value::Int32(1), Value::Boolean(false)),
        Value::Array(vec![Value::Int32(1), Value::Boolean(false)])
    );
}

#[test]
fn clone_copies_every_level() {
    let inner = doc(vec![("x", Value::Array(vec![Value::Int64(5), Value::text("y")]))]);
    let outer = doc(vec![("inner", Value::Document(inner)), ("flag", Value::Boolean(true))]);
    let copy = outer.clone();
    assert_eq!(copy, outer);
    assert_eq!(keys(&copy), vec!["inner", "flag"]);
    let value = Value::Document(outer);
    assert_eq!(value.clone(), value);
}

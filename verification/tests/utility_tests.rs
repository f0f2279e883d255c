use bext::manifests::utility::{set_optional, set_optional_list};
use toml_edit::DocumentMut;

#[test]
fn test_set_optional_some() {
    let mut doc = DocumentMut::new();

    set_optional(&mut doc, "key1", Some("value1"));
    assert_eq!(doc["key1"].as_str(), Some("value1"));
}

#[test]
fn test_set_optional_none() {
    let mut doc = DocumentMut::new();
    doc["key1"] = toml_edit::value("value1");

    set_optional(&mut doc, "key1", None::<&str>);
    assert!(doc.get("key1").is_none());
}

#[test]
fn set_optional_list_writes_an_array() {
    let mut doc = DocumentMut::new();
    let items = vec!["a".to_string(), "b".to_string()];
    set_optional_list(&mut doc, "list", Some(&items));
    let array = doc["list"].as_array().unwrap();
    assert_eq!(array.len(), 2);
    assert_eq!(array.get(1).unwrap().as_str(), Some("b"));
    set_optional_list(&mut doc, "list", None);
    assert!(doc.get("list").is_none());
}

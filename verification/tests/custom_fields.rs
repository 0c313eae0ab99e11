//! Writing and reading custom field values as JSON documents.

use redmine_api::api::custom_fields::{
    CustomFieldEssentialsWithValue, CustomFieldError, EditTagStyle,
};
use redmine_api::api::endpoint::{RequestBody, json_body};
use redmine_api::api::json::JsonValue;
use redmine_api::api::pagination::response_document;

fn value(multiple: Option<bool>, values: Option<Vec<&str>>) -> CustomFieldEssentialsWithValue {
    CustomFieldEssentialsWithValue {
        id: 4,
        name: "Affected version".to_string(),
        multiple,
        value: values.map(|v| v.into_iter().map(|s| s.to_string()).collect()),
    }
}

fn to_text(c: &CustomFieldEssentialsWithValue) -> String {
    let doc = c.to_json().expect("writable");
    match json_body(&doc).expect("encodable") {
        Some(RequestBody::Bytes { data, .. }) => String::from_utf8(data).unwrap(),
        other => panic!("expected bytes, got {other:?}"),
    }
}

fn read(text: &str) -> Result<CustomFieldEssentialsWithValue, CustomFieldError> {
    let doc: JsonValue = response_document(200, text.as_bytes()).expect("JSON");
    CustomFieldEssentialsWithValue::from_json(&doc)
}

fn same(a: &CustomFieldEssentialsWithValue, b: &CustomFieldEssentialsWithValue) -> bool {
    a.id == b.id && a.name == b.name && a.multiple == b.multiple && a.value == b.value
}

#[test]
fn writes_the_forms_of_the_value() {
    assert_eq!(
        to_text(&value(Some(true), Some(vec!["1.0", "2.0"]))),
        r#"{"id":4,"name":"Affected version","multiple":true,"value":["1.0","2.0"]}"#
    );
    assert_eq!(
        to_text(&value(Some(false), None)),
        r#"{"id":4,"name":"Affected version","multiple":false,"value":null}"#
    );
    assert_eq!(
        to_text(&value(None, Some(vec!["x"]))),
        r#"{"id":4,"name":"Affected version","value":"x"}"#
    );
    assert_eq!(to_text(&value(None, Some(vec![]))), r#"{"id":4,"name":"Affected version","value":null}"#);
    assert_eq!(to_text(&value(None, None)), r#"{"id":4,"name":"Affected version","value":null}"#);
}

#[test]
fn refuses_several_values_without_multiple() {
    match value(None, Some(vec!["a", "b"])).to_json() {
        Err(CustomFieldError::TooManyValues) => {}
        other => panic!("expected TooManyValues, got {other:?}"),
    }
}

#[test]
fn reads_back_what_it_writes() {
    for c in [
        value(Some(true), Some(vec!["1.0", "2.0"])),
        value(Some(true), Some(vec![])),
        value(None, Some(vec!["x"])),
        value(None, None),
    ] {
        let back = read(&to_text(&c)).expect("readable");
        assert!(same(&back, &c), "{c:?} came back as {back:?}");
    }
}

#[test]
fn reads_in_any_member_order() {
    let c = read(r#"{"value":"v","name":"n","id":9}"#).unwrap();
    assert_eq!((c.id, c.name.as_str(), c.multiple, c.value), (9, "n", None, Some(vec!["v".to_string()])));
    let m = read(r#"{"multiple":true,"id":1,"name":"n","value":["a","b"]}"#).unwrap();
    assert_eq!(m.value, Some(vec!["a".to_string(), "b".to_string()]));
}

#[test]
fn reading_errors() {
    assert!(matches!(read("[1]"), Err(CustomFieldError::NotAnObject)));
    assert!(matches!(read(r#"{"name":"n"}"#), Err(CustomFieldError::MissingField(f)) if f == "id"));
    assert!(matches!(read(r#"{"id":1}"#), Err(CustomFieldError::MissingField(f)) if f == "name"));
    assert!(matches!(read(r#"{"id":"1","name":"n"}"#), Err(CustomFieldError::InvalidType(f)) if f == "id"));
    assert!(matches!(read(r#"{"id":1,"name":"n","extra":0}"#), Err(CustomFieldError::UnknownField(f)) if f == "extra"));
    assert!(matches!(read(r#"{"id":1,"name":"n","multiple":false,"value":null}"#), Err(CustomFieldError::InvalidCombination)));
    assert!(matches!(read(r#"{"id":1,"name":"n","multiple":true}"#), Err(CustomFieldError::InvalidCombination)));
    assert!(matches!(read(r#"{"id":1,"name":"n","value":["a"],"multiple":true}"#), Err(CustomFieldError::InvalidType(f)) if f == "value"));
}

#[test]
fn duplicate_members_are_refused() {
    let members = vec![
        ("id".to_string(), JsonValue::UInt(1)),
        ("name".to_string(), JsonValue::Str("n".to_string())),
        ("value".to_string(), JsonValue::Str("a".to_string())),
        ("value".to_string(), JsonValue::Str("b".to_string())),
    ];
    let r = CustomFieldEssentialsWithValue::from_json(&JsonValue::Object(members));
    assert!(matches!(r, Err(CustomFieldError::DuplicateField(f)) if f == "value"));
    let members = vec![
        ("id".to_string(), JsonValue::UInt(1)),
        ("id".to_string(), JsonValue::UInt(2)),
    ];
    let r = CustomFieldEssentialsWithValue::from_json(&JsonValue::Object(members));
    assert!(matches!(r, Err(CustomFieldError::DuplicateField(f)) if f == "id"));
    // a null value is not remembered, so a second value is read
    let members = vec![
        ("id".to_string(), JsonValue::UInt(1)),
        ("name".to_string(), JsonValue::Str("n".to_string())),
        ("value".to_string(), JsonValue::Null),
        ("value".to_string(), JsonValue::Str("b".to_string())),
    ];
    let r = CustomFieldEssentialsWithValue::from_json(&JsonValue::Object(members)).unwrap();
    assert_eq!(r.value, Some(vec!["b".to_string()]));
}

#[test]
fn edit_tag_styles() {
    assert_eq!(EditTagStyle::DropDown.to_text(), "");
    assert_eq!(EditTagStyle::CheckBox.to_text(), "check_box");
    assert_eq!(EditTagStyle::from_text("radio"), Some(EditTagStyle::Radio));
    assert_eq!(EditTagStyle::from_text(""), Some(EditTagStyle::DropDown));
    assert_eq!(EditTagStyle::from_text("list"), None);
}

#[test]
fn writes_back_the_documents_redmine_sends() {
    for text in [
        r#"{"id":4,"name":"Affected version","value":null}"#,
        r#"{"id":4,"name":"Affected version","value":"1.0"}"#,
        r#"{"id":4,"name":"Affected version","multiple":true,"value":["1.0","2.0"]}"#,
        r#"{"id":4,"name":"Affected version","multiple":true,"value":[]}"#,
    ] {
        let c = read(text).expect("readable");
        assert_eq!(to_text(&c), text);
    }
}

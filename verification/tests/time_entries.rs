//! Time entry endpoints.

use redmine_api::api::dates::Date;
use redmine_api::api::endpoint::{BuilderError, Endpoint, RequestBody};
use redmine_api::api::filters::{CustomFieldFilter, DateFilter, FloatFilter, StringFieldFilter};
use redmine_api::api::json::JsonNumber;
use redmine_api::api::time_entries::{CreateTimeEntry, ListTimeEntries, UpdateTimeEntry};

fn body_json(e: &impl Endpoint) -> serde_json::Value {
    match e.body().unwrap() {
        Some(RequestBody::Bytes { data, .. }) => serde_json::from_slice(&data).unwrap(),
        other => panic!("expected a JSON body, got {other:?}"),
    }
}

#[test]
fn list_time_entries_parameters() {
    let endpoint = ListTimeEntries::builder()
        .project_id_or_name("demo")
        .spent_on(DateFilter::ThisWeek)
        .hours(FloatFilter::GreaterThanOrEqual("0.5".to_string()))
        .custom_field_filters(vec![
            CustomFieldFilter { id: 2, value: StringFieldFilter::ExactMatch("a".to_string()) },
            CustomFieldFilter { id: 11, value: StringFieldFilter::SubStringMatch("b".to_string()) },
        ])
        .build()
        .unwrap();
    let pairs: Vec<(String, String)> = endpoint.parameters().pairs().clone();
    let expected: Vec<(String, String)> = [
        ("project_id", "demo"),
        ("spent_on", "w"),
        ("hours", ">=0.5"),
        ("cf_2", "a"),
        ("cf_11", "~b"),
    ]
    .iter()
    .map(|(k, v)| (k.to_string(), v.to_string()))
    .collect();
    assert_eq!(pairs, expected);
}

#[test]
fn create_time_entry_needs_issue_or_project() {
    match CreateTimeEntry::builder().hours(JsonNumber { text: "1".to_string() }).build() {
        Err(BuilderError::ValidationError(m)) => {
            assert_eq!(m, "Either issue_id or project_id need to be specified")
        }
        other => panic!("expected a validation error, got {other:?}"),
    }
    // the validation comes before the required fields
    assert!(matches!(
        CreateTimeEntry::builder().build(),
        Err(BuilderError::ValidationError(_))
    ));
    assert!(matches!(
        CreateTimeEntry::builder().issue_id(1).build(),
        Err(BuilderError::UninitializedField("hours"))
    ));
}

#[test]
fn create_time_entry_body() {
    let endpoint = CreateTimeEntry::builder()
        .issue_id(3)
        .spent_on(Date::from_calendar_date(2022, 8, 9).unwrap())
        .hours(JsonNumber { text: "2.25".to_string() })
        .comments("review")
        .build()
        .unwrap();
    assert_eq!(endpoint.endpoint(), "time_entries.json");
    let expected: serde_json::Value = serde_json::from_str(
        r#"{"time_entry":{"issue_id":3,"spent_on":"2022-08-09","hours":2.25,"comments":"review"}}"#,
    )
    .unwrap();
    assert_eq!(body_json(&endpoint), expected);
}

#[test]
fn update_time_entry_body() {
    let endpoint = UpdateTimeEntry::builder().id(8).activity_id(4).build().unwrap();
    assert_eq!(endpoint.endpoint(), "time_entries/8.json");
    let expected: serde_json::Value =
        serde_json::from_str(r#"{"time_entry":{"activity_id":4}}"#).unwrap();
    assert_eq!(body_json(&endpoint), expected);
}

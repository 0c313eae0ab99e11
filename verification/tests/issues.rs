//! Issue endpoints: the parameters of the issue list and the bodies of
//! creating and updating issues.

use redmine_api::api::custom_fields::CustomField;
use redmine_api::api::dates::{Date, DateTime};
use redmine_api::api::endpoint::{ClientSettings, Endpoint, HttpMethod, RequestBody};
use redmine_api::api::filters::StringFieldFilter;
use redmine_api::api::issues::{
    AddWatcher, AssigneeFilter, ComparableFilter, CreateIssue, GetIssue, IssueInclude,
    IssueListInclude, ListIssues, SortByColumn, StatusFilter, UpdateIssue, UploadedAttachment,
};
use redmine_api::api::json::JsonNumber;

fn pairs(e: &impl Endpoint) -> Vec<(String, String)> {
    e.parameters().pairs().clone()
}

fn body_json(e: &impl Endpoint) -> serde_json::Value {
    match e.body().unwrap() {
        Some(RequestBody::Bytes { mime, data }) => {
            assert_eq!(mime, "application/json");
            serde_json::from_slice(&data).unwrap()
        }
        other => panic!("expected a JSON body, got {other:?}"),
    }
}

fn p(k: &str, v: &str) -> (String, String) {
    (k.to_string(), v.to_string())
}

#[test]
fn list_issues_parameters_in_order() {
    let d = Date::from_calendar_date(2024, 5, 1).unwrap();
    let created = DateTime::utc(d, 12, 0, 0).unwrap();
    let endpoint = ListIssues::builder()
        .includes(vec![IssueListInclude::Attachments, IssueListInclude::Relations])
        .sort(vec![SortByColumn::Reverse { column_name: "updated_on".to_string() }])
        .project_id(vec![1, 2])
        .status_id(StatusFilter::Closed)
        .subject(StringFieldFilter::SubStringMatch("crash".to_string()))
        .assignee(AssigneeFilter::Me)
        .query_id(3)
        .version_id(vec![7])
        .created_on(ComparableFilter::GreaterThanOrEqual(created))
        .due_date(ComparableFilter::LessThan(d))
        .build()
        .unwrap();
    assert_eq!(
        pairs(&endpoint),
        vec![
            p("include", "attachments,relations"),
            p("sort", "updated_on:desc"),
            p("project_id", "1,2"),
            p("status_id", "closed"),
            p("subject", "~crash"),
            p("assigned_to_id", "me"),
            p("query_id", "3"),
            p("fixed_version_id", "7"),
            p("created_on", ">=2024-05-01T12:00:00Z"),
            p("due_date", "<2024-05-01"),
        ]
    );
    let request = ClientSettings::new("http://h", "k").page_request(&endpoint, 50, 25).unwrap();
    assert!(request.url.starts_with("http://h/issues.json?include=attachments%2Crelations&sort="));
    assert!(request.url.ends_with("&offset=50&limit=25"));
}

#[test]
fn get_issue_includes() {
    let endpoint = GetIssue::builder()
        .id(12)
        .includes(vec![IssueInclude::Journals, IssueInclude::AllowedStatuses])
        .build()
        .unwrap();
    assert_eq!(endpoint.endpoint(), "issues/12.json");
    assert_eq!(pairs(&endpoint), vec![p("include", "journals,allowed_statuses")]);
}

#[test]
fn create_issue_body_skips_absent_fields() {
    let endpoint = CreateIssue::builder()
        .project_id(5)
        .subject("Printer on fire")
        .version(2)
        .custom_fields(vec![CustomField { id: 3, name: None, value: "high".to_string() }])
        .estimated_hours(JsonNumber { text: "1.5".to_string() })
        .uploads(vec![UploadedAttachment {
            token: "7.abc".to_string(),
            filename: "log.txt".to_string(),
            description: None,
            content_type: "text/plain".to_string(),
        }])
        .build()
        .unwrap();
    assert_eq!(endpoint.method(), HttpMethod::Post);
    let expected: serde_json::Value = serde_json::from_str(
        r#"{"issue":{"project_id":5,"subject":"Printer on fire","fixed_version_id":2,
            "custom_fields":[{"id":3,"name":null,"value":"high"}],"estimated_hours":1.5,
            "uploads":[{"token":"7.abc","filename":"log.txt","content_type":"text/plain"}]}}"#,
    )
    .unwrap();
    assert_eq!(body_json(&endpoint), expected);
    assert!(CreateIssue::builder().subject("x").build().is_err());
}

#[test]
fn update_issue_body() {
    let endpoint = UpdateIssue::builder()
        .id(9)
        .notes("done")
        .private_notes(true)
        .build()
        .unwrap();
    assert_eq!(endpoint.endpoint(), "issues/9.json");
    assert_eq!(endpoint.method(), HttpMethod::Put);
    let expected: serde_json::Value =
        serde_json::from_str(r#"{"issue":{"notes":"done","private_notes":true}}"#).unwrap();
    assert_eq!(body_json(&endpoint), expected);
}

#[test]
fn add_watcher_body_is_flat() {
    let endpoint = AddWatcher::builder().issue_id(4).user_id(6).build().unwrap();
    assert_eq!(endpoint.endpoint(), "issues/4/watchers.json");
    let expected: serde_json::Value = serde_json::from_str(r#"{"user_id":6}"#).unwrap();
    assert_eq!(body_json(&endpoint), expected);
}

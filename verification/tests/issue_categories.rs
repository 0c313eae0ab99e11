//! Issue category endpoints, in the sequences of integration tests against a
//! server: a project is created, a category in it, then renamed or deleted.

use redmine_api::api::endpoint::{ClientSettings, HttpMethod, Request, RequestBody};
use redmine_api::api::issue_categories::{
    CreateIssueCategory, DeleteIssueCategory, UpdateIssueCategory,
};
use redmine_api::api::json::JsonValue;
use redmine_api::api::pagination::response_document;
use redmine_api::api::projects::CreateProject;

fn settings() -> ClientSettings {
    ClientSettings::new("http://localhost:3000/", "secret-key")
}

fn body_json(request: &Request) -> serde_json::Value {
    match &request.body {
        Some(RequestBody::Bytes { mime, data }) => {
            assert_eq!(mime, "application/json");
            serde_json::from_slice(data).expect("the body is JSON")
        }
        other => panic!("expected a JSON body, got {other:?}"),
    }
}

fn member<'a>(doc: &'a JsonValue, key: &str) -> &'a JsonValue {
    match doc {
        JsonValue::Object(members) => {
            &members.iter().find(|(k, _)| k == key).expect("member present").1
        }
        other => panic!("expected an object, got {other:?}"),
    }
}

/// The request creating the test project named `name`.
fn create_project(name: &str) -> Request {
    let endpoint = CreateProject::builder()
        .name(&format!("Unittest redmine-api {name}"))
        .identifier(name)
        .enabled_module_names(vec![
            "files".to_string(),
            "issue_tracking".to_string(),
            "news".to_string(),
            "wiki".to_string(),
        ])
        .build()
        .unwrap();
    settings().request(&endpoint).unwrap()
}

fn create_category(project: &str) -> Request {
    let create_endpoint = CreateIssueCategory::builder()
        .project_id_or_name(project)
        .name("Unittest Issue Category")
        .build()
        .unwrap();
    settings().request(&create_endpoint).unwrap()
}

fn category_id(reply: &str) -> u64 {
    let doc = response_document(201, reply.as_bytes()).unwrap();
    match member(member(&doc, "issue_category"), "id") {
        JsonValue::UInt(n) => *n,
        other => panic!("expected a number, got {other:?}"),
    }
}

const CATEGORY_REPLY: &str = r#"{"issue_category":{"id":14,"project":{"id":3,"name":"p"},"name":"Unittest Issue Category"}}"#;

#[test]
fn test_create_issue_category() {
    let name = format!("unittest_{}", "test_create_issue_category");
    let project = create_project(&name);
    assert_eq!(project.url, "http://localhost:3000/projects.json?");
    let create = create_category(&name);
    assert_eq!(create.method, HttpMethod::Post);
    assert_eq!(
        create.url,
        "http://localhost:3000/projects/unittest_test_create_issue_category/issue_categories.json?"
    );
    let expected: serde_json::Value =
        serde_json::from_str(r#"{"issue_category":{"name":"Unittest Issue Category"}}"#).unwrap();
    assert_eq!(body_json(&create), expected);
}

#[test]
fn test_update_issue_category() {
    let name = format!("unittest_{}", "test_update_issue_category");
    let _project = create_project(&name);
    let _create = create_category(&name);
    let id = category_id(CATEGORY_REPLY);
    let update_endpoint = UpdateIssueCategory::builder()
        .id(id)
        .name("Renamed Unit-Test name")
        .build()
        .unwrap();
    let update = settings().request(&update_endpoint).unwrap();
    assert_eq!(update.method, HttpMethod::Put);
    assert_eq!(update.url, "http://localhost:3000/issue_categories/14.json?");
    let expected: serde_json::Value =
        serde_json::from_str(r#"{"issue_category":{"name":"Renamed Unit-Test name"}}"#).unwrap();
    assert_eq!(body_json(&update), expected);
}

#[test]
fn test_delete_issue_category() {
    let name = format!("unittest_{}", "test_delete_issue_category");
    let _project = create_project(&name);
    let _create = create_category(&name);
    let id = category_id(CATEGORY_REPLY);
    let delete_endpoint = DeleteIssueCategory::builder().id(id).build().unwrap();
    let delete = settings().request(&delete_endpoint).unwrap();
    assert_eq!(delete.method, HttpMethod::Delete);
    assert_eq!(delete.url, "http://localhost:3000/issue_categories/14.json?");
    assert!(delete.body.is_none());
    assert_eq!(delete.headers.len(), 1);
}

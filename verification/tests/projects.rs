//! Project endpoints, in the sequences of integration tests against a server.

use redmine_api::api::endpoint::{ClientSettings, HttpMethod, Request, RequestBody};
use redmine_api::api::projects::{CreateProject, DeleteProject, GetProject, UpdateProject};

fn settings() -> ClientSettings {
    ClientSettings::new("http://localhost:3000", "k")
}

fn body_json(request: &Request) -> serde_json::Value {
    match &request.body {
        Some(RequestBody::Bytes { mime, data }) => {
            assert_eq!(mime, "application/json");
            serde_json::from_slice(data).expect("the body is JSON")
        }
        other => panic!("expected a JSON body, got {other:?}"),
    }
}

/// The requests that set up a test project: look it up, delete it,
/// create it anew.
fn with_project(name: &str) -> Vec<Request> {
    let redmine = settings();
    let get_endpoint = GetProject::builder().project_id_or_name(name).build().unwrap();
    let delete_endpoint = DeleteProject::builder().project_id_or_name(name).build().unwrap();
    let create_endpoint = CreateProject::builder()
        .name(&format!("Unittest redmine-api {name}"))
        .identifier(name)
        .enabled_module_names(vec![
            "files".to_string(),
            "issue_tracking".to_string(),
            "news".to_string(),
            "wiki".to_string(),
        ])
        .build()
        .unwrap();
    vec![
        redmine.request(&get_endpoint).unwrap(),
        redmine.request(&delete_endpoint).unwrap(),
        redmine.request(&create_endpoint).unwrap(),
    ]
}

#[test]
fn test_create_project() {
    let name = format!("unittest_{}", "test_create_project");
    let requests = with_project(&name);
    assert_eq!(requests[0].method, HttpMethod::Get);
    assert_eq!(requests[0].url, "http://localhost:3000/projects/unittest_test_create_project.json?");
    assert_eq!(requests[1].method, HttpMethod::Delete);
    assert_eq!(requests[1].url, "http://localhost:3000/projects/unittest_test_create_project.json?");
    assert_eq!(requests[2].method, HttpMethod::Post);
    assert_eq!(requests[2].url, "http://localhost:3000/projects.json?");
    let expected: serde_json::Value = serde_json::from_str(
        r#"{"project":{"name":"Unittest redmine-api unittest_test_create_project","identifier":"unittest_test_create_project","enabled_module_names":["files","issue_tracking","news","wiki"]}}"#,
    )
    .unwrap();
    assert_eq!(body_json(&requests[2]), expected);
}

#[test]
fn projects_test_update_project() {
    let name = format!("unittest_{}", "test_update_project");
    let _requests = with_project(&name);
    let update_endpoint = UpdateProject::builder()
        .project_id_or_name(&name)
        .description("Test-Description")
        .build()
        .unwrap();
    let update = settings().request(&update_endpoint).unwrap();
    assert_eq!(update.method, HttpMethod::Put);
    assert_eq!(update.url, "http://localhost:3000/projects/unittest_test_update_project.json?");
    let expected: serde_json::Value =
        serde_json::from_str(r#"{"project":{"description":"Test-Description"}}"#).unwrap();
    assert_eq!(body_json(&update), expected);
}

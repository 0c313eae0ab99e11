//! Project membership endpoints, in the sequences of integration tests
//! against a server.

use redmine_api::api::endpoint::{ClientSettings, HttpMethod, Request, RequestBody};
use redmine_api::api::json::JsonValue;
use redmine_api::api::pagination::response_document;
use redmine_api::api::project_memberships::{CreateProjectMembership, UpdateProjectMembership};

fn settings() -> ClientSettings {
    ClientSettings::new("https://redmine.example.org", "k")
}

fn body_json(request: &Request) -> serde_json::Value {
    match &request.body {
        Some(RequestBody::Bytes { mime, data }) => {
            assert_eq!(mime, "application/json");
            serde_json::from_slice(data).expect("the body is JSON")
        }
        other => panic!("expected a JSON body, got {other:?}"),
    }
}

fn member<'a>(doc: &'a JsonValue, key: &str) -> &'a JsonValue {
    match doc {
        JsonValue::Object(members) => {
            &members.iter().find(|(k, _)| k == key).expect("member present").1
        }
        other => panic!("expected an object, got {other:?}"),
    }
}

fn create_membership(project_id: u64) -> Request {
    let create_endpoint = CreateProjectMembership::builder()
        .project_id_or_name(&project_id.to_string())
        .user_id(1)
        .role_ids(vec![8])
        .build()
        .unwrap();
    settings().request(&create_endpoint).unwrap()
}

#[test]
fn test_create_project_membership() {
    let create = create_membership(42);
    assert_eq!(create.method, HttpMethod::Post);
    assert_eq!(create.url, "https://redmine.example.org/projects/42/memberships.json?");
    let expected: serde_json::Value =
        serde_json::from_str(r#"{"membership":{"user_id":1,"role_ids":[8]}}"#).unwrap();
    assert_eq!(body_json(&create), expected);
}

#[test]
fn test_update_project_membership() {
    let _create = create_membership(42);
    let reply = r#"{"membership":{"id":301,"project":{"id":42,"name":"p"},"user":{"id":1,"name":"Admin"},"roles":[{"id":8,"name":"Manager"}]}}"#;
    let doc = response_document(201, reply.as_bytes()).unwrap();
    let id = match member(member(&doc, "membership"), "id") {
        JsonValue::UInt(n) => *n,
        other => panic!("expected a number, got {other:?}"),
    };
    let update_endpoint = UpdateProjectMembership::builder()
        .id(id)
        .role_ids(vec![9])
        .build()
        .unwrap();
    let update = settings().request(&update_endpoint).unwrap();
    assert_eq!(update.method, HttpMethod::Put);
    assert_eq!(update.url, "https://redmine.example.org/memberships/301.json?");
    let expected: serde_json::Value =
        serde_json::from_str(r#"{"membership":{"role_ids":[9]}}"#).unwrap();
    assert_eq!(body_json(&update), expected);
}

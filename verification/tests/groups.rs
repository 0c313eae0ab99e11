//! Group endpoints: the requests that creating, renaming and deleting a
//! group make, and reading the created group's id from the reply.

use redmine_api::api::endpoint::{ClientSettings, HttpMethod, Request, RequestBody};
use redmine_api::api::groups::{CreateGroup, DeleteGroup, UpdateGroup};
use redmine_api::api::json::JsonValue;
use redmine_api::api::pagination::response_document;

fn settings() -> ClientSettings {
    ClientSettings::new("http://localhost:3000", "0123456789abcdef0123456789abcdef01234567")
}

fn body_json(request: &Request) -> serde_json::Value {
    match &request.body {
        Some(RequestBody::Bytes { mime, data }) => {
            assert_eq!(mime, "application/json");
            serde_json::from_slice(data).expect("the body is JSON")
        }
        other => panic!("expected a JSON body, got {other:?}"),
    }
}

fn member<'a>(doc: &'a JsonValue, key: &str) -> &'a JsonValue {
    match doc {
        JsonValue::Object(members) => {
            &members.iter().find(|(k, _)| k == key).expect("member present").1
        }
        other => panic!("expected an object, got {other:?}"),
    }
}

/// The id of the group in a reply to a create request.
fn created_id(reply: &str) -> u64 {
    let doc = response_document(201, reply.as_bytes()).expect("a JSON reply");
    match member(member(&doc, "group"), "id") {
        JsonValue::UInt(n) => *n,
        other => panic!("expected a number, got {other:?}"),
    }
}

/// Creates the group named `name` and deletes it again, as integration
/// tests against a server do, returning the requests made and the group id.
fn with_group(name: &str) -> (Request, u64, Request) {
    let redmine = settings();
    let create_endpoint = CreateGroup::builder().name(name).build().unwrap();
    let create = redmine.request(&create_endpoint).unwrap();
    let id = created_id(r#"{"group":{"id":27,"name":"unittest_test_create_group"}}"#);
    let delete_endpoint = DeleteGroup::builder().id(id).build().unwrap();
    let delete = redmine.request(&delete_endpoint).unwrap();
    (create, id, delete)
}

#[test]
fn test_create_group() {
    let name = format!("unittest_{}", "test_create_group");
    let (create, id, delete) = with_group(&name);
    assert_eq!(create.method, HttpMethod::Post);
    assert_eq!(create.url, "http://localhost:3000/groups.json?");
    let expected: serde_json::Value =
        serde_json::from_str(r#"{"group":{"name":"unittest_test_create_group","user_ids":null}}"#)
            .unwrap();
    assert_eq!(body_json(&create), expected);
    assert_eq!(id, 27);
    assert_eq!(delete.method, HttpMethod::Delete);
    assert_eq!(delete.url, "http://localhost:3000/groups/27.json?");
    assert!(delete.body.is_none());
}

#[test]
fn groups_test_update_project() {
    let name = format!("unittest_{}", "test_update_project");
    let (_create, id, _delete) = with_group(&name);
    let update_endpoint = UpdateGroup::builder()
        .id(id)
        .name("unittest_rename_test")
        .build()
        .unwrap();
    let update = settings().request(&update_endpoint).unwrap();
    assert_eq!(update.method, HttpMethod::Put);
    assert_eq!(update.url, "http://localhost:3000/groups/27.json?");
    let expected: serde_json::Value =
        serde_json::from_str(r#"{"group":{"name":"unittest_rename_test","user_ids":null}}"#).unwrap();
    assert_eq!(body_json(&update), expected);
}

#[test]
fn group_request_headers_carry_key_and_content_type() {
    let mut redmine = settings();
    redmine.impersonate_user(5);
    let endpoint = CreateGroup::builder().name("g").build().unwrap();
    let request = redmine.request(&endpoint).unwrap();
    let headers: Vec<(&str, &str)> = request
        .headers
        .iter()
        .map(|(k, v)| (k.as_str(), v.as_str()))
        .collect();
    assert_eq!(
        headers,
        vec![
            ("x-redmine-api-key", "0123456789abcdef0123456789abcdef01234567"),
            ("X-Redmine-Switch-User", "5"),
            ("Content-Type", "application/json"),
        ]
    );
}

#[test]
fn update_group_without_name_is_refused() {
    let result = UpdateGroup::builder().id(3).build();
    match result {
        Err(redmine_api::api::endpoint::BuilderError::UninitializedField(n)) => assert_eq!(n, "name"),
        other => panic!("expected a missing field, got {other:?}"),
    }
}

//! Listing roles, with and without the `givable` filter.

use redmine_api::api::endpoint::{ClientSettings, HttpMethod};
use redmine_api::api::json::JsonValue;
use redmine_api::api::pagination::response_document;
use redmine_api::api::roles::{GetRole, ListRoles};

fn settings() -> ClientSettings {
    ClientSettings::new("http://localhost:3000", "k")
}

const ROLES_REPLY: &str = r#"{"roles":[{"id":8,"name":"Manager"},{"id":9,"name":"Developer"}]}"#;

fn role_names(doc: &JsonValue) -> Vec<String> {
    let roles = match doc {
        JsonValue::Object(members) => &members.iter().find(|(k, _)| k == "roles").unwrap().1,
        other => panic!("expected an object, got {other:?}"),
    };
    match roles {
        JsonValue::Array(items) => items
            .iter()
            .map(|item| match item {
                JsonValue::Object(members) => match &members[1] {
                    (k, JsonValue::Str(s)) if k == "name" => s.clone(),
                    other => panic!("unexpected member {other:?}"),
                },
                other => panic!("unexpected value {other:?}"),
            })
            .collect(),
        other => panic!("expected an array, got {other:?}"),
    }
}

#[test]
fn test_list_roles_no_pagination() {
    let endpoint = ListRoles::builder().build().unwrap();
    let request = settings().request(&endpoint).unwrap();
    assert_eq!(request.method, HttpMethod::Get);
    assert_eq!(request.url, "http://localhost:3000/roles.json?");
    let doc = response_document(200, ROLES_REPLY.as_bytes()).unwrap();
    assert_eq!(role_names(&doc), vec!["Manager".to_string(), "Developer".to_string()]);
}

#[test]
fn test_list_roles_givable_filter() {
    let endpoint = ListRoles::builder().givable(true).build().unwrap();
    let request = settings().request(&endpoint).unwrap();
    assert_eq!(request.url, "http://localhost:3000/roles.json?givable=true");
    let doc = response_document(200, ROLES_REPLY.as_bytes()).unwrap();
    assert_eq!(role_names(&doc).len(), 2);
}

#[test]
fn get_role_path() {
    let endpoint = GetRole::builder().id(8).build().unwrap();
    let request = settings().request(&endpoint).unwrap();
    assert_eq!(request.url, "http://localhost:3000/roles/8.json?");
}

#[test]
fn error_status_is_reported_before_the_body() {
    match response_document(404, b"") {
        Err(redmine_api::Error::HttpErrorResponse(404)) => {}
        other => panic!("expected an HTTP error, got {other:?}"),
    }
    match response_document(204, b"") {
        Err(redmine_api::Error::EmptyResponseBody(204)) => {}
        other => panic!("expected an empty body error, got {other:?}"),
    }
    match response_document(200, b"{not json") {
        Err(redmine_api::Error::SerdeJsonError(_)) => {}
        other => panic!("expected a JSON error, got {other:?}"),
    }
}

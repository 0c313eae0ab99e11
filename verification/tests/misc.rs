//! Uploads, account settings, versions, project custom field values, JSON
//! text, issue URLs and the test image.

use redmine_api::api::dates::Date;
use redmine_api::api::endpoint::{ClientSettings, Endpoint, RequestBody, json_body};
use redmine_api::api::json::JsonValue;
use redmine_api::api::pagination::response_document;
use redmine_api::api::my_account::{
    AutoWatchAction, CommentsSorting, MailNotificationOption, ToolbarLanguage, UpdateMyAccount,
};
use redmine_api::api::projects::{CreateProject, CustomFieldValues};
use redmine_api::api::query::QueryParams;
use redmine_api::api::redmine_image::RedmineImage;
use redmine_api::api::uploads::UploadFile;
use redmine_api::api::versions::{CreateVersion, VersionSharing, VersionStatus};

fn body_text(e: &impl Endpoint) -> Option<String> {
    match e.body().unwrap() {
        Some(RequestBody::Bytes { data, .. }) => Some(String::from_utf8(data).unwrap()),
        None => None,
        other => panic!("unexpected body {other:?}"),
    }
}

#[test]
fn upload_takes_the_file_name_from_the_path() {
    let upload = UploadFile::builder().file("/tmp/reports/summary.pdf").build().unwrap();
    assert_eq!(upload.endpoint(), "uploads.json");
    assert_eq!(
        upload.parameters().pairs().clone(),
        vec![("filename".to_string(), "summary.pdf".to_string())]
    );
    match upload.body().unwrap() {
        Some(RequestBody::File { mime, path }) => {
            assert_eq!(mime, "application/octet-stream");
            assert_eq!(path, "/tmp/reports/summary.pdf");
        }
        other => panic!("expected a file body, got {other:?}"),
    }
    let named = UploadFile::builder().file("/tmp/a.bin").filename("b.bin").build().unwrap();
    assert_eq!(named.parameters().pairs().clone(), vec![("filename".to_string(), "b.bin".to_string())]);
    let root = UploadFile::builder().file("/").build().unwrap();
    assert!(root.parameters().pairs().is_empty());
}

#[test]
fn my_account_update_bodies() {
    let empty = UpdateMyAccount::builder().build().unwrap();
    assert_eq!(body_text(&empty), None);
    let only_user = UpdateMyAccount::builder().firstname("Ada").build().unwrap();
    assert_eq!(body_text(&only_user).unwrap(), r#"{"user":{"firstname":"Ada"}}"#);
    let both = UpdateMyAccount::builder()
        .mail_notification(MailNotificationOption::NoNotification)
        .comments_sorting(CommentsSorting::Desc)
        .toolbar_language_options(vec![ToolbarLanguage::Cpp, ToolbarLanguage::Python])
        .auto_watch_on(vec![AutoWatchAction::IssueCreated, AutoWatchAction::IssueContributedTo])
        .build()
        .unwrap();
    assert_eq!(
        body_text(&both).unwrap(),
        r#"{"pref":{"auto_watch_on":"issue_created,issue_contributed_to","comments_sorting":"desc","toolbar_language_options":"cpp,python"},"user":{"mail_notification":"none"}}"#
    );
}

#[test]
fn version_body() {
    let endpoint = CreateVersion::builder()
        .project_id_or_name("demo")
        .name("1.0")
        .status(VersionStatus::Locked)
        .sharing(VersionSharing::NotShared)
        .due_date(Date::from_calendar_date(2025, 1, 31).unwrap())
        .build()
        .unwrap();
    assert_eq!(endpoint.endpoint(), "projects/demo/versions.json");
    assert_eq!(
        body_text(&endpoint).unwrap(),
        r#"{"version":{"name":"1.0","status":"locked","sharing":"none","due_date":"2025-01-31"}}"#
    );
}

#[test]
fn project_custom_field_values_are_keyed_by_id() {
    let endpoint = CreateProject::builder()
        .name("P")
        .identifier("p")
        .custom_field_values(CustomFieldValues {
            values: vec![(3, "x".to_string()), (12, "y".to_string())],
        })
        .build()
        .unwrap();
    assert_eq!(
        body_text(&endpoint).unwrap(),
        r#"{"project":{"name":"P","identifier":"p","custom_field_values":{"3":"x","12":"y"}}}"#
    );
}

#[test]
fn json_text_round_trip() {
    let doc = JsonValue::Object(vec![
        ("b".to_string(), JsonValue::Bool(true)),
        ("a".to_string(), JsonValue::Array(vec![JsonValue::UInt(1), JsonValue::Null])),
        ("n".to_string(), JsonValue::Num("-2.5".to_string())),
        ("s".to_string(), JsonValue::Str("q\"uote".to_string())),
    ]);
    let text = match json_body(&doc).unwrap() {
        Some(RequestBody::Bytes { mime, data }) => {
            assert_eq!(mime, "application/json");
            data
        }
        other => panic!("expected bytes, got {other:?}"),
    };
    assert_eq!(String::from_utf8(text.clone()).unwrap(), r#"{"b":true,"a":[1,null],"n":-2.5,"s":"q\"uote"}"#);
    let back = response_document(200, &text).unwrap();
    assert_eq!(format!("{back:?}"), format!("{doc:?}"));
    assert!(response_document(200, b"{").is_err());
}

#[test]
fn issue_urls() {
    let settings = ClientSettings::new("https://redmine.example.org/", "k");
    assert_eq!(settings.issue_url(42).unwrap(), "https://redmine.example.org/issues/42");
    assert_eq!(settings.redmine_url(), "https://redmine.example.org/");
    let broken = ClientSettings::new("not a url", "k");
    assert!(matches!(broken.issue_url(1), Err(redmine_api::Error::UrlParseError(_))));
}

#[test]
fn redmine_image_name_and_tag() {
    let image = RedmineImage::new("6.0.5".to_string());
    assert_eq!(image.name(), "docker.io/redmine");
    assert_eq!(image.tag(), "6.0.5");
}

#[test]
fn query_params_push_calls_chain_in_order() {
    let mut q = QueryParams::default();
    q.push("offset", &0u64).push("limit", &25u64);
    assert_eq!(
        q.pairs().clone(),
        vec![
            ("offset".to_string(), "0".to_string()),
            ("limit".to_string(), "25".to_string())
        ]
    );
}

#[test]
fn query_params_push_writes_lists_and_flags() {
    let mut q = QueryParams::new();
    q.push("ids", &vec![1u64, 2, 3]).push("closed", &true);
    assert_eq!(
        q.pairs().clone(),
        vec![
            ("ids".to_string(), "1,2,3".to_string()),
            ("closed".to_string(), "true".to_string())
        ]
    );
}

#[test]
fn query_params_push_opt_skips_absent_values_and_chains() {
    let mut q = QueryParams::new();
    q.push_opt("a", &None::<u64>)
        .push_opt("b", &Some(7u64))
        .extend(&vec![("c".to_string(), 8u64), ("d".to_string(), 9u64)])
        .push("e", &"x");
    assert_eq!(
        q.pairs().clone(),
        vec![
            ("b".to_string(), "7".to_string()),
            ("c".to_string(), "8".to_string()),
            ("d".to_string(), "9".to_string()),
            ("e".to_string(), "x".to_string())
        ]
    );
}

#[test]
fn query_params_extend_with_nothing_changes_nothing() {
    let mut q = QueryParams::new();
    q.push("offset", &3u64);
    let empty: Vec<(String, u64)> = Vec::new();
    q.extend(&empty);
    assert_eq!(q.pairs().clone(), vec![("offset".to_string(), "3".to_string())]);
}

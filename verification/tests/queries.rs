//! Listing queries page by page, as integration tests against a server do:
//! one page at offset 0 with 25 values, and all pages one after the other.

use redmine_api::api::endpoint::{ClientSettings, HttpMethod};
use redmine_api::api::json::JsonValue;
use redmine_api::api::pagination::{PageLoop, parse_page};
use redmine_api::api::queries::ListQueries;

fn settings() -> ClientSettings {
    ClientSettings::new("http://localhost:3000", "k")
}

/// A reply holding `count` queries, numbered from `first_id`.
fn reply(total_count: u64, offset: u64, limit: u64, first_id: u64, count: u64) -> String {
    let queries: Vec<String> = (0..count)
        .map(|i| format!(r#"{{"id":{},"name":"q{}","is_public":true,"project_id":null}}"#, first_id + i, first_id + i))
        .collect();
    format!(
        r#"{{"queries":[{}],"total_count":{},"offset":{},"limit":{}}}"#,
        queries.join(","),
        total_count,
        offset,
        limit
    )
}

fn ids(values: &JsonValue) -> Vec<u64> {
    match values {
        JsonValue::Array(items) => items
            .iter()
            .map(|item| match item {
                JsonValue::Object(members) => match &members[0] {
                    (k, JsonValue::UInt(n)) if k == "id" => *n,
                    other => panic!("unexpected member {other:?}"),
                },
                other => panic!("unexpected value {other:?}"),
            })
            .collect(),
        other => panic!("expected an array, got {other:?}"),
    }
}

#[test]
fn test_list_queries_first_page() {
    let endpoint = ListQueries::builder().build().unwrap();
    let request = settings().page_request(&endpoint, 0, 25).unwrap();
    assert_eq!(request.method, HttpMethod::Get);
    assert_eq!(request.url, "http://localhost:3000/queries.json?offset=0&limit=25");
    let body = reply(3, 0, 25, 1, 3);
    let page = parse_page(200, body.as_bytes(), "queries").unwrap();
    assert_eq!((page.total_count, page.offset, page.limit), (3, 0, 25));
    assert_eq!(ids(&page.values), vec![1, 2, 3]);
}

#[test]
fn test_list_queries_all_pages() {
    let endpoint = ListQueries::builder().build().unwrap();
    let redmine = settings();
    let replies = [reply(130, 0, 100, 1, 100), reply(130, 100, 100, 101, 30)];
    let mut walk = PageLoop::new();
    let mut all: Vec<u64> = Vec::new();
    let mut urls: Vec<String> = Vec::new();
    let mut pages = 0;
    loop {
        let request = redmine.page_request(&endpoint, walk.offset(), walk.limit()).unwrap();
        urls.push(request.url);
        let page = parse_page(200, replies[pages].as_bytes(), "queries").unwrap();
        pages += 1;
        all.extend(ids(&page.values));
        if walk.after_page(page.total_count, page.offset, page.limit) {
            break;
        }
    }
    assert_eq!(
        urls,
        vec![
            "http://localhost:3000/queries.json?offset=0&limit=100".to_string(),
            "http://localhost:3000/queries.json?offset=100&limit=100".to_string(),
        ]
    );
    assert_eq!(all, (1..=130).collect::<Vec<u64>>());
}

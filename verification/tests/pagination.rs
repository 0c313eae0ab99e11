//! Reading paginated replies, and walking through all pages value by value.

use redmine_api::Error;
use redmine_api::api::json::JsonValue;
use redmine_api::api::pagination::{
    PageCursor, PageLoop, ResponsePage, Step, check_status, parse_page,
};

fn page(values: Vec<u64>, total_count: u64, offset: u64, limit: u64) -> ResponsePage<u64> {
    ResponsePage { values, total_count, offset, limit }
}

#[test]
fn status_checks() {
    assert!(check_status(200).is_ok());
    assert!(check_status(302).is_ok());
    assert!(matches!(check_status(400), Err(Error::HttpErrorResponse(400))));
    assert!(matches!(check_status(499), Err(Error::HttpErrorResponse(499))));
    assert!(matches!(check_status(503), Err(Error::HttpErrorResponse(503))));
    assert!(check_status(600).is_ok());
}

#[test]
fn page_errors_in_order() {
    assert!(matches!(parse_page(200, b"", "issues"), Err(Error::EmptyResponseBody(200))));
    assert!(matches!(parse_page(200, b"nope", "issues"), Err(Error::SerdeJsonError(_))));
    assert!(matches!(parse_page(201, b"[1,2]", "issues"), Err(Error::NonObjectResponseBody(201))));
    assert!(matches!(
        parse_page(200, br#"{"offset":0,"limit":25,"issues":[]}"#, "issues"),
        Err(Error::PaginationKeyMissing(k)) if k == "total_count"
    ));
    assert!(matches!(
        parse_page(200, br#"{"total_count":1,"limit":25,"issues":[]}"#, "issues"),
        Err(Error::PaginationKeyMissing(k)) if k == "offset"
    ));
    assert!(matches!(
        parse_page(200, br#"{"total_count":1,"offset":"0","limit":25,"issues":[]}"#, "issues"),
        Err(Error::PaginationKeyHasWrongType(k)) if k == "offset"
    ));
    assert!(matches!(
        parse_page(200, br#"{"total_count":1,"offset":0,"limit":-1,"issues":[]}"#, "issues"),
        Err(Error::PaginationKeyHasWrongType(k)) if k == "limit"
    ));
    assert!(matches!(
        parse_page(200, br#"{"total_count":1.5,"offset":0,"limit":2,"issues":[]}"#, "issues"),
        Err(Error::PaginationKeyHasWrongType(k)) if k == "total_count"
    ));
    assert!(matches!(
        parse_page(200, br#"{"total_count":1,"offset":0,"limit":25}"#, "issues"),
        Err(Error::PaginationKeyMissing(k)) if k == "issues"
    ));
    let ok = parse_page(200, br#"{"issues":[{"id":1}],"total_count":1,"offset":0,"limit":25}"#, "issues")
        .unwrap();
    assert_eq!((ok.total_count, ok.offset, ok.limit), (1, 0, 25));
    assert!(matches!(ok.values, JsonValue::Array(ref a) if a.len() == 1));
}

#[test]
fn page_loop_walks_by_the_limit() {
    let mut walk = PageLoop::new();
    assert_eq!((walk.offset(), walk.limit()), (0, 100));
    assert!(!walk.after_page(250, 0, 100));
    assert_eq!(walk.offset(), 100);
    assert!(!walk.after_page(250, 100, 100));
    assert_eq!(walk.offset(), 200);
    assert!(walk.after_page(250, 200, 100));
    assert_eq!(walk.offset(), 200);
    // a server with smaller pages: the next page starts where the last ended
    let mut small = PageLoop::new();
    assert!(!small.after_page(150, 0, 50));
    assert_eq!((small.offset(), small.limit()), (50, 100));
    assert!(!small.after_page(150, 50, 50));
    assert_eq!(small.offset(), 100);
    assert!(!small.after_page(150, 100, 50));
    assert_eq!(small.offset(), 150);
    assert!(small.after_page(150, 150, 50));
    // exactly filled pages need one more request
    let mut full = PageLoop::new();
    assert!(!full.after_page(100, 0, 100));
    assert!(full.after_page(100, 100, 100));
}

#[test]
fn cursor_hands_out_values_in_order() {
    let mut cursor: PageCursor<u64> = PageCursor::new();
    assert_eq!(cursor.size_hint(), (0, None));
    let mut seen: Vec<u64> = Vec::new();
    let mut fetches: Vec<(u64, u64)> = Vec::new();
    let pages = vec![page(vec![1, 2, 3], 5, 0, 3), page(vec![4, 5], 5, 3, 3)];
    let mut next_page = 0;
    loop {
        match cursor.next_step() {
            Step::Yield(v) => seen.push(v),
            Step::Done => break,
            Step::Fetch { offset, limit } => {
                fetches.push((offset, limit));
                let p = page(
                    pages[next_page].values.clone(),
                    pages[next_page].total_count,
                    pages[next_page].offset,
                    pages[next_page].limit,
                );
                next_page += 1;
                if let Some(v) = cursor.receive_page(p) {
                    seen.push(v);
                }
                if next_page == 1 {
                    assert_eq!(cursor.size_hint(), (2, Some(4)));
                }
            }
        }
    }
    assert_eq!(seen, vec![1, 2, 3, 4, 5]);
    // the second page ends at 6, beyond the total count of 5: no third fetch
    assert_eq!(fetches, vec![(0, 100), (3, 100)]);
    assert_eq!(cursor.yielded(), 5);
    assert!(matches!(cursor.next_step(), Step::Done));
}

#[test]
fn cursor_stops_on_empty_first_page() {
    let mut cursor: PageCursor<u64> = PageCursor::new();
    assert!(matches!(cursor.next_step(), Step::Fetch { offset: 0, limit: 100 }));
    assert_eq!(cursor.receive_page(page(vec![], 0, 0, 100)), None);
    assert!(matches!(cursor.next_step(), Step::Done));
}

/// A walk against a server that sends 50 values per page gathers all 120
/// values once, in order.
#[test]
fn all_pages_with_smaller_server_pages() {
    let items: Vec<u64> = (0..120).collect();
    let mut walk = PageLoop::new();
    let mut gathered: Vec<u64> = Vec::new();
    loop {
        let offset = walk.offset() as usize;
        let end = (offset + 50).min(items.len());
        let values = if offset < items.len() { items[offset..end].to_vec() } else { vec![] };
        gathered.extend(values);
        if walk.after_page(items.len() as u64, offset as u64, 50) {
            break;
        }
    }
    assert_eq!(gathered, items);
}

/// The cursor against a server that sends 50 values per page hands out all
/// 100 values once, in order, then stops for good.
#[test]
fn cursor_with_smaller_server_pages() {
    let items: Vec<u64> = (0..100).collect();
    let mut cursor: PageCursor<u64> = PageCursor::new();
    let mut seen: Vec<u64> = Vec::new();
    let mut nones = 0;
    for _ in 0..110 {
        let out = match cursor.next_step() {
            Step::Yield(v) => Some(v),
            Step::Done => None,
            Step::Fetch { offset, .. } => {
                let o = offset as usize;
                let end = (o + 50).min(items.len());
                let values = if o < items.len() { items[o..end].to_vec() } else { vec![] };
                cursor.receive_page(page(values, items.len() as u64, offset, 50))
            }
        };
        match out {
            Some(v) => {
                assert_eq!(nones, 0, "a value after the end");
                seen.push(v)
            }
            None => nones += 1,
        }
    }
    assert_eq!(seen, items);
    assert_eq!(nones, 10);
}

use keyset_pagination::request::{split_rows, DEFAULT_LIMIT, MAX_LIMIT};
use keyset_pagination::{PaginationRequest, PaginationResponse, SortOrder};

fn with_limit(limit: Option<u32>) -> PaginationRequest {
    PaginationRequest { cursor: None, limit, sort_by: None, sort_order: None }
}

fn with_order(sort_order: Option<SortOrder>) -> PaginationRequest {
    PaginationRequest { cursor: None, limit: None, sort_by: None, sort_order }
}

#[test]
fn the_limits_are_ten_and_a_hundred() {
    assert_eq!(DEFAULT_LIMIT, 10);
    assert_eq!(MAX_LIMIT, 100);
}

#[test]
fn no_limit_is_the_default() {
    assert_eq!(with_limit(None).effective_limit(), 10);
    assert_eq!(PaginationRequest::default().effective_limit(), 10);
}

#[test]
fn a_limit_in_range_is_kept() {
    assert_eq!(with_limit(Some(1)).effective_limit(), 1);
    assert_eq!(with_limit(Some(10)).effective_limit(), 10);
    assert_eq!(with_limit(Some(37)).effective_limit(), 37);
    assert_eq!(with_limit(Some(99)).effective_limit(), 99);
    assert_eq!(with_limit(Some(100)).effective_limit(), 100);
}

#[test]
fn limit_zero_is_served_as_no_limit() {
    assert_eq!(with_limit(Some(0)).effective_limit(), with_limit(None).effective_limit());
    assert_eq!(with_limit(Some(0)).effective_limit(), 10);
}

#[test]
fn a_limit_above_the_maximum_is_served_as_no_limit() {
    assert_eq!(with_limit(Some(101)).effective_limit(), 10);
    assert_eq!(with_limit(Some(500)).effective_limit(), 10);
    assert_eq!(with_limit(Some(u32::MAX)).effective_limit(), 10);
}

#[test]
fn only_descending_scrolls_to_smaller_keys() {
    assert!(!with_order(None).scrolls_smaller());
    assert!(!with_order(Some(SortOrder::Asc)).scrolls_smaller());
    assert!(with_order(Some(SortOrder::Desc)).scrolls_smaller());
}

#[test]
fn the_default_request_is_empty() {
    let request = PaginationRequest::default();
    assert_eq!(request.cursor, None);
    assert_eq!(request.limit, None);
    assert_eq!(request.sort_by, None);
    assert_eq!(request.sort_order, None);
}

#[test]
fn a_cloned_request_is_the_same() {
    let request = PaginationRequest {
        cursor: Some(String::from("WyJhIiwiYiJd")),
        limit: Some(25),
        sort_by: Some(String::from("created_at")),
        sort_order: Some(SortOrder::Desc),
    };
    let copy = request.clone();
    assert_eq!(copy.cursor, Some(String::from("WyJhIiwiYiJd")));
    assert_eq!(copy.limit, Some(25));
    assert_eq!(copy.sort_by, Some(String::from("created_at")));
    assert_eq!(copy.sort_order, Some(SortOrder::Desc));
    assert_eq!(request.cursor, copy.cursor);
}

#[test]
fn the_default_response_is_an_empty_last_page() {
    let page: PaginationResponse<u8> = PaginationResponse::default();
    assert!(page.data.is_empty());
    assert_eq!(page.next_cursor, None);
}

#[test]
fn split_rows_drops_the_row_that_was_peeked() {
    assert_eq!(split_rows(vec![1, 2, 3], 2), (vec![1, 2], true));
    assert_eq!(split_rows(vec![7], 0), (vec![], true));
    let rows: Vec<u32> = (0..101).collect();
    let (page, more) = split_rows(rows, 100);
    assert_eq!(page, (0..100).collect::<Vec<u32>>());
    assert!(more);
}

#[test]
fn split_rows_keeps_a_page_that_is_full_or_short() {
    assert_eq!(split_rows(vec![1, 2], 2), (vec![1, 2], false));
    assert_eq!(split_rows(vec![1], 2), (vec![1], false));
    assert_eq!(split_rows(Vec::<u8>::new(), 2), (vec![], false));
    assert_eq!(split_rows(Vec::<u8>::new(), 0), (vec![], false));
}

#[test]
fn split_rows_keeps_rows_that_were_not_asked_for() {
    assert_eq!(split_rows(vec![1, 2, 3, 4], 2), (vec![1, 2, 3, 4], false));
}

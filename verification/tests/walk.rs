use keyset_pagination::cursor::decode;
use keyset_pagination::key::Timestamp;
use keyset_pagination::query::PageQuery;
use keyset_pagination::{KeyParse, PaginationRequest, PaginationResponse, Paginator, SortOrder};
use sqlx::Execute;

#[derive(Clone, Debug, PartialEq)]
struct Post {
    created_at: String,
    id: String,
}

fn keys_of(post: &Post) -> (String, String) {
    (post.created_at.clone(), post.id.clone())
}

fn rank(post: &Post) -> (i64, u32, String) {
    let t = Timestamp::parse_key(post.created_at.clone()).unwrap();
    (t.unix_seconds(), t.subsec_nanos(), post.id.clone())
}

/// Posts in ascending order of `(created_at, id)`; every second one shares
/// its time with the one before it, so that the second key decides.
fn table(len: usize) -> Vec<Post> {
    (0..len)
        .map(|n| Post {
            created_at: format!("2024-01-01T00:{:02}:{:02}Z", (n / 2) / 60, (n / 2) % 60),
            id: format!("{:04}", n),
        })
        .collect()
}

/// What a store with this table answers to the query that the paginator
/// prepares for the request.
fn answer(table: &[Post], request: &PaginationRequest, limit: usize) -> Vec<Post> {
    let p = Paginator::new().keys("created_at", "id").retrieve_keys(keys_of).request(request);
    let query = p.prepare::<Timestamp, String>(PageQuery::new("select * from posts where true")).unwrap();
    let mut builder = query.builder;
    let sql = String::from(builder.build().sql());
    let descending = request.sort_order == Some(SortOrder::Desc);
    let (op, dir) = if descending { ("<", "desc") } else { (">", "asc") };
    let order = format!(" order by created_at {}, id {}", dir, dir);
    let after = match &request.cursor {
        Some(cursor) => {
            assert_eq!(
                sql,
                format!("select * from posts where true AND (created_at, id) {} ($1, $2){} limit $3", op, order)
            );
            let (v1, v2) = decode(cursor).unwrap();
            let t = Timestamp::parse_key(v1).unwrap();
            Some((t.unix_seconds(), t.subsec_nanos(), v2))
        }
        None => {
            assert_eq!(sql, format!("select * from posts where true{} limit $1", order));
            None
        }
    };
    let mut rows: Vec<Post> = table
        .iter()
        .filter(|post| match &after {
            Some(cursor) => {
                if descending {
                    rank(post) < *cursor
                } else {
                    rank(post) > *cursor
                }
            }
            None => true,
        })
        .cloned()
        .collect();
    rows.sort_by_key(rank);
    if descending {
        rows.reverse();
    }
    rows.truncate(limit + 1);
    rows
}

fn page(table: &[Post], request: &PaginationRequest, limit: usize) -> PaginationResponse<Post> {
    let p = Paginator::new().keys("created_at", "id").retrieve_keys(keys_of).request(request);
    p.finish(answer(table, request, limit)).unwrap()
}

fn walk(table: &[Post], limit: Option<u32>, size: usize, sort_order: Option<SortOrder>) -> Vec<Vec<Post>> {
    let mut pages = Vec::new();
    let mut cursor = None;
    loop {
        let request = PaginationRequest { cursor, limit, sort_by: None, sort_order };
        let page = page(table, &request, size);
        pages.push(page.data);
        assert!(pages.len() <= table.len() + 1);
        match page.next_cursor {
            Some(next) => cursor = Some(next),
            None => return pages,
        }
    }
}

#[test]
fn walking_up_yields_the_table() {
    let table = table(23);
    let pages = walk(&table, Some(5), 5, Some(SortOrder::Asc));
    assert_eq!(pages.iter().map(Vec::len).collect::<Vec<usize>>(), vec![5, 5, 5, 5, 3]);
    assert_eq!(pages.concat(), table);
}

#[test]
fn walking_down_yields_the_table_in_reverse() {
    let table = table(23);
    let pages = walk(&table, Some(5), 5, Some(SortOrder::Desc));
    assert_eq!(pages.iter().map(Vec::len).collect::<Vec<usize>>(), vec![5, 5, 5, 5, 3]);
    let mut reversed = table.clone();
    reversed.reverse();
    assert_eq!(pages.concat(), reversed);
}

#[test]
fn walking_without_an_order_goes_up() {
    let table = table(7);
    let pages = walk(&table, Some(3), 3, None);
    assert_eq!(pages.concat(), table);
    assert_eq!(pages[0], table[..3].to_vec());
}

#[test]
fn walking_yields_every_table_for_every_limit() {
    for len in 0..14 {
        let table = table(len);
        for limit in 1..6u32 {
            for sort_order in [None, Some(SortOrder::Asc), Some(SortOrder::Desc)] {
                let pages = walk(&table, Some(limit), limit as usize, sort_order);
                assert!(pages.iter().all(|page| page.len() <= limit as usize));
                let mut expected = table.clone();
                if sort_order == Some(SortOrder::Desc) {
                    expected.reverse();
                }
                assert_eq!(pages.concat(), expected);
            }
        }
    }
}

#[test]
fn walking_with_the_default_limit_takes_ten_at_a_time() {
    let table = table(25);
    for limit in [None, Some(0), Some(500)] {
        let pages = walk(&table, limit, 10, None);
        assert_eq!(pages.iter().map(Vec::len).collect::<Vec<usize>>(), vec![10, 10, 5]);
        assert_eq!(pages.concat(), table);
    }
}

#[test]
fn a_table_of_one_page_is_served_at_once() {
    let table = table(4);
    let request = PaginationRequest { cursor: None, limit: Some(4), sort_by: None, sort_order: None };
    let page = page(&table, &request, 4);
    assert_eq!(page.data, table);
    assert_eq!(page.next_cursor, None);
}

#[test]
fn a_table_of_one_row_more_takes_a_second_call() {
    let table = table(5);
    let request = PaginationRequest { cursor: None, limit: Some(4), sort_by: None, sort_order: None };
    let first = page(&table, &request, 4);
    assert_eq!(first.data, table[..4].to_vec());
    assert!(first.next_cursor.is_some());
    let request = PaginationRequest { cursor: first.next_cursor, limit: Some(4), sort_by: None, sort_order: None };
    let second = page(&table, &request, 4);
    assert_eq!(second.data, table[4..].to_vec());
    assert_eq!(second.next_cursor, None);
}

#[test]
fn the_rows_of_a_page_are_in_order() {
    let table = table(9);
    for sort_order in [Some(SortOrder::Asc), Some(SortOrder::Desc)] {
        let request = PaginationRequest { cursor: None, limit: Some(6), sort_by: None, sort_order };
        let page = page(&table, &request, 6);
        assert_eq!(page.data.len(), 6);
        for pair in page.data.windows(2) {
            if sort_order == Some(SortOrder::Desc) {
                assert!(rank(&pair[0]) > rank(&pair[1]));
            } else {
                assert!(rank(&pair[0]) < rank(&pair[1]));
            }
        }
    }
}

#[test]
fn an_empty_table_is_one_empty_page() {
    let pages = walk(&[], None, 10, None);
    assert_eq!(pages, vec![Vec::<Post>::new()]);
}

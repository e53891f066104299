//! The query that fetches a page: a statement under construction, and the
//! range, order and limit clauses that are appended to it.

use vstd::prelude::*;
use sqlx::{Postgres, QueryBuilder};
use sqlx_page::Page;
use crate::key::{Key, Param, Timestamp};

verus! {

#[verifier::external_type_specification]
#[verifier::external_body]
pub struct ExPage(Page);

#[verifier::external_type_specification]
#[verifier::external_body]
pub struct ExStoreError(sqlx::Error);

/// A statement under construction: its text so far, and the values bound to
/// its placeholders.
///
/// Trusted: the field is a `QueryBuilder` of `sqlx`, which the verifier does
/// not look into; [`query_text`] and [`query_params`] name what it holds.
#[verifier::external_body]
pub struct PageQuery<'a> {
    pub builder: QueryBuilder<'a, Postgres>,
}

/// The text of the statement so far.
pub uninterp spec fn query_text(query: PageQuery<'_>) -> Seq<char>;

/// The values bound to the statement so far, in the order of their
/// placeholders; `None` once they have been taken out to run the statement.
pub uninterp spec fn query_params(query: PageQuery<'_>) -> Option<Seq<Param>>;

/// What a `Page` of `sqlx_page` was made with: whether it scrolls towards
/// smaller keys, the number of rows, and the columns.
pub uninterp spec fn page_settings(page: Page) -> (bool, u32, Seq<Seq<char>>);

/// The decimal digit `d`.
pub open spec fn digit(d: nat) -> char {
    seq!['0', '1', '2', '3', '4', '5', '6', '7', '8', '9'][d as int]
}

/// The decimal numeral of `n`.
pub open spec fn decimal(n: nat) -> Seq<char>
    decreases n,
{
    if n < 10 {
        seq![digit(n)]
    } else {
        decimal(n / 10).push(digit(n % 10))
    }
}

/// The placeholder of the `n`-th bound value: `$1` for the first.
pub open spec fn placeholder(n: nat) -> Seq<char> {
    "$"@ + decimal(n)
}

/// The items, with the separator between each two of them.
pub open spec fn joined(items: Seq<Seq<char>>, separator: Seq<char>) -> Seq<char>
    decreases items.len(),
{
    if items.len() == 0 {
        Seq::empty()
    } else if items.len() == 1 {
        items[0]
    } else {
        joined(items.drop_last(), separator) + separator + items.last()
    }
}

/// The comparison that keeps the rows beyond a cursor: smaller keys on the
/// way down, larger ones on the way up.
pub open spec fn comparison(smaller: bool) -> Seq<char> {
    if smaller {
        "<"@
    } else {
        ">"@
    }
}

/// The direction in which the rows are sorted.
pub open spec fn direction(smaller: bool) -> Seq<char> {
    if smaller {
        "desc"@
    } else {
        "asc"@
    }
}

/// The condition that keeps the rows whose pair of keys lies strictly
/// beyond the pair of values bound next, where `bound` values are bound
/// already: ` AND (key1, key2) < ($1, $2)`. The two pairs are compared part
/// by part, the first part first.
pub open spec fn range_clause(columns: (Seq<char>, Seq<char>), smaller: bool, bound: nat) -> Seq<
    char,
> {
    " AND ("@ + columns.0 + ", "@ + columns.1 + ") "@ + comparison(smaller) + " ("@ + placeholder(
        bound + 1,
    ) + ", "@ + placeholder(bound + 2) + ")"@
}

/// One sort term for each column: `key1 desc`.
pub open spec fn order_terms(columns: Seq<Seq<char>>, smaller: bool) -> Seq<Seq<char>> {
    Seq::new(columns.len(), |i: int| columns[i] + " "@ + direction(smaller))
}

/// The clause that sorts by the columns: ` order by key1 desc, key2 desc`.
pub open spec fn order_clause(columns: Seq<Seq<char>>, smaller: bool) -> Seq<char> {
    " order by "@ + joined(order_terms(columns, smaller), ", "@)
}

/// The clause that limits the rows to the value bound next, where `bound`
/// values are bound already: ` limit $3`.
pub open spec fn limit_clause(bound: nat) -> Seq<char> {
    " limit "@ + placeholder(bound + 1)
}

/// Calls `QueryBuilder::new` of `sqlx`. Trusted: the statement holds the
/// text it was made with, and no bound values.
#[verifier::external_body]
fn new_builder<'a>(sql: &str) -> (query: PageQuery<'a>)
    ensures
        query_text(query) == sql@,
        query_params(query) == Some(Seq::<Param>::empty()),
{
    PageQuery { builder: QueryBuilder::new(sql) }
}

impl<'a> PageQuery<'a> {
    /// A statement that holds `sql` and no bound values.
    pub fn new(sql: &str) -> (query: Self)
        ensures
            query_text(query) == sql@,
            query_params(query) == Some(Seq::<Param>::empty()),
    {
        new_builder(sql)
    }
}

/// Calls `QueryBuilder::push` of `sqlx`. Trusted: the text is appended and
/// the bound values stay. The call panics once the values have been taken
/// out; the precondition leaves that out.
#[verifier::external_body]
fn push_sql(query: &mut PageQuery<'_>, sql: &str)
    requires
        query_params(*old(query)) is Some,
    ensures
        query_text(*final(query)) == query_text(*old(query)) + sql@,
        query_params(*final(query)) == query_params(*old(query)),
{
    query.builder.push(sql);
}

/// Calls `Page::new` of `sqlx_page`. Trusted: the page holds what it was
/// made with.
#[verifier::external_body]
fn new_page(smaller: bool, size: u32, columns: Vec<String>) -> (page: Page)
    ensures
        page_settings(page) == (smaller, size, columns.deep_view()),
{
    Page::new(smaller, size, columns)
}

/// Calls `QueryBuilder::push_bind` of `sqlx` with a text. Trusted: the
/// placeholder of the next value is appended, and the text is bound to it.
/// The call panics once the values have been taken out; the precondition
/// leaves that out.
#[verifier::external_body]
fn bind_text(query: &mut PageQuery<'_>, text: String)
    requires
        query_params(*old(query)) is Some,
    ensures
        query_text(*final(query)) == query_text(*old(query)) + placeholder(
            query_params(*old(query)).unwrap().len() + 1,
        ),
        query_params(*final(query)) == Some(
            query_params(*old(query)).unwrap().push(Param::Text(text@)),
        ),
{
    query.builder.push_bind(text);
}

/// Calls `QueryBuilder::push_bind` of `sqlx` with a point in time. Trusted:
/// the placeholder of the next value is appended, and the point in time is
/// bound to it. The call panics once the values have been taken out; the
/// precondition leaves that out.
#[verifier::external_body]
fn bind_instant(query: &mut PageQuery<'_>, t: Timestamp)
    requires
        query_params(*old(query)) is Some,
    ensures
        query_text(*final(query)) == query_text(*old(query)) + placeholder(
            query_params(*old(query)).unwrap().len() + 1,
        ),
        query_params(*final(query)) == Some(
            query_params(*old(query)).unwrap().push(Param::Instant(t@.0, t@.1)),
        ),
{
    query.builder.push_bind(t.inner);
}

/// Appends the placeholder of the next value, and binds the key to it.
pub fn push_key(query: &mut PageQuery<'_>, key: Key)
    requires
        query_params(*old(query)) is Some,
    ensures
        query_text(*final(query)) == query_text(*old(query)) + placeholder(
            query_params(*old(query)).unwrap().len() + 1,
        ),
        query_params(*final(query)) == Some(query_params(*old(query)).unwrap().push(key@)),
{
    match key {
        Key::Text(text) => bind_text(query, text),
        Key::Timestamp(t) => bind_instant(query, t),
    }
}

/// The comparison that keeps the rows beyond a cursor.
fn comparison_of(smaller: bool) -> (op: &'static str)
    ensures
        op@ == comparison(smaller),
{
    if smaller {
        "<"
    } else {
        ">"
    }
}

/// Appends the condition that keeps the rows whose keys lie strictly beyond
/// the pair `(first, second)`, and binds the pair.
///
/// The condition compares the pair of columns with the pair of
/// placeholders, each pair in parentheses. `Page::push_where2` of
/// `sqlx_page` leaves those parentheses out and so writes no condition;
/// that is why the range is written here.
pub fn push_range(
    query: &mut PageQuery<'_>,
    smaller: bool,
    key1: &str,
    key2: &str,
    first: Key,
    second: Key,
)
    requires
        query_params(*old(query)) is Some,
    ensures
        query_text(*final(query)) == query_text(*old(query)) + range_clause(
            (key1@, key2@),
            smaller,
            query_params(*old(query)).unwrap().len(),
        ),
        query_params(*final(query)) == Some(
            query_params(*old(query)).unwrap().push(first@).push(second@),
        ),
{
    let ghost text = query_text(*query);
    let ghost bound = query_params(*query).unwrap().len();
    push_sql(query, " AND (");
    push_sql(query, key1);
    push_sql(query, ", ");
    push_sql(query, key2);
    push_sql(query, ") ");
    push_sql(query, comparison_of(smaller));
    push_sql(query, " (");
    push_key(query, first);
    push_sql(query, ", ");
    push_key(query, second);
    push_sql(query, ")");
    assert(query_text(*query) =~= text + range_clause((key1@, key2@), smaller, bound));
}

/// Calls `Page::push_order_by` of `sqlx_page`. Trusted: the clause that
/// sorts by the page's columns, each in the page's direction, is appended.
#[verifier::external_body]
fn push_order(page: &Page, query: &mut PageQuery<'_>)
    requires
        query_params(*old(query)) is Some,
    ensures
        query_text(*final(query)) == query_text(*old(query)) + order_clause(
            page_settings(*page).2,
            page_settings(*page).0,
        ),
        query_params(*final(query)) == query_params(*old(query)),
{
    page.push_order_by(&mut query.builder);
}

/// Calls `Page::push_limit` of `sqlx_page`. Trusted: the limit clause with
/// one new placeholder is appended, and the page's size is bound to it.
#[verifier::external_body]
fn push_limit(page: &Page, query: &mut PageQuery<'_>)
    requires
        query_params(*old(query)) is Some,
    ensures
        query_text(*final(query)) == query_text(*old(query)) + limit_clause(
            query_params(*old(query)).unwrap().len(),
        ),
        query_params(*final(query)) == Some(
            query_params(*old(query)).unwrap().push(Param::Count(page_settings(*page).1)),
        ),
{
    page.push_limit(&mut query.builder);
}

/// What a page fetch reads: the direction, the number of rows to ask for,
/// the two columns, and the keys that the rows must lie beyond.
pub struct Scan {
    pub smaller: bool,
    pub fetch: u32,
    pub columns: (Seq<char>, Seq<char>),
    pub after: Option<(Param, Param)>,
}

/// The text that a scan appends to a statement with `bound` values bound.
pub open spec fn scan_text(scan: Scan, bound: nat) -> Seq<char> {
    let columns = seq![scan.columns.0, scan.columns.1];
    match scan.after {
        Some(_) => range_clause(scan.columns, scan.smaller, bound) + order_clause(
            columns,
            scan.smaller,
        ) + limit_clause(bound + 2),
        None => order_clause(columns, scan.smaller) + limit_clause(bound),
    }
}

/// The values that a scan binds, in the order of their placeholders.
pub open spec fn scan_params(scan: Scan) -> Seq<Param> {
    match scan.after {
        Some((first, second)) => seq![first, second, Param::Count(scan.fetch)],
        None => seq![Param::Count(scan.fetch)],
    }
}

/// Appends the clauses of a page fetch to a statement that ends in a
/// `WHERE` condition: the range beyond `after`, where there is one, then
/// the order and the limit.
pub fn push_scan<'a>(
    query: PageQuery<'a>,
    smaller: bool,
    fetch: u32,
    key1: String,
    key2: String,
    after: Option<(Key, Key)>,
) -> (out: PageQuery<'a>)
    requires
        query_params(query) is Some,
    ensures
        ({
            let scan = Scan {
                smaller,
                fetch,
                columns: (key1@, key2@),
                after: match after {
                    Some((first, second)) => Some((first@, second@)),
                    None => None,
                },
            };
            &&& query_text(out) == query_text(query) + scan_text(
                scan,
                query_params(query).unwrap().len(),
            )
            &&& query_params(out) == Some(query_params(query).unwrap() + scan_params(scan))
        }),
{
    let mut query = query;
    let ghost text = query_text(query);
    let ghost params = query_params(query).unwrap();
    let ghost names = (key1@, key2@);
    let ghost range = if after is Some {
        range_clause(names, smaller, params.len())
    } else {
        Seq::<char>::empty()
    };
    let ghost keys = if after is Some {
        let pair = after.unwrap();
        seq![pair.0@, pair.1@]
    } else {
        Seq::<Param>::empty()
    };
    match after {
        Some((first, second)) => {
            push_range(&mut query, smaller, key1.as_str(), key2.as_str(), first, second);
        },
        None => {},
    }
    assert(query_text(query) =~= text + range);
    assert(query_params(query).unwrap() =~= params + keys);
    let mut columns: Vec<String> = Vec::new();
    columns.push(key1);
    columns.push(key2);
    assert(columns.deep_view() =~= seq![names.0, names.1]);
    let page = new_page(smaller, fetch, columns);
    push_order(&page, &mut query);
    push_limit(&page, &mut query);
    assert(query_text(query) =~= text + (range + order_clause(seq![names.0, names.1], smaller)
        + limit_clause(params.len() + keys.len())));
    assert(query_params(query).unwrap() =~= params + keys.push(Param::Count(fetch)));
    query
}

} // verus!

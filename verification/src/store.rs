//! A model of the store that answers the queries of the engine, and what
//! holds of paging over it.
//!
//! A row's composite key is stood for by a pair of integers: the rank of
//! each part in the order of its column. The store compares pairs part by
//! part, the first part first.

use vstd::prelude::*;
use crate::request::{effective_limit, has_next, page_rows, scrolls_smaller, SortOrder};

verus! {

/// Whether the key `a` comes before the key `b`: by the first part, and by
/// the second where the first parts are equal.
pub open spec fn precedes(a: (int, int), b: (int, int)) -> bool {
    a.0 < b.0 || (a.0 == b.0 && a.1 < b.1)
}

/// Whether `key` lies beyond `cursor` in the direction of the walk: before
/// it towards smaller keys, after it towards larger ones.
pub open spec fn beyond(key: (int, int), cursor: (int, int), smaller: bool) -> bool {
    if smaller {
        precedes(key, cursor)
    } else {
        precedes(cursor, key)
    }
}

/// Whether each row lies beyond the row before it.
pub open spec fn ordered<T>(rows: Seq<T>, rank: spec_fn(T) -> (int, int), smaller: bool) -> bool {
    forall|i: int|
        0 <= i < rows.len() - 1 ==> beyond(rank(rows[i + 1]), rank(#[trigger] rows[i]), smaller)
}

/// The rows of `table` that lie beyond the cursor, in the order of `table`;
/// all of them where there is no cursor.
pub open spec fn rows_beyond<T>(
    table: Seq<T>,
    rank: spec_fn(T) -> (int, int),
    smaller: bool,
    after: Option<(int, int)>,
) -> Seq<T> {
    match after {
        Some(cursor) => table.filter(|row: T| beyond(rank(row), cursor, smaller)),
        None => table,
    }
}

/// What the store returns for a scan of `table`, whose rows it holds in the
/// order of the walk: the first `fetch` rows beyond the cursor.
pub open spec fn fetched<T>(
    table: Seq<T>,
    rank: spec_fn(T) -> (int, int),
    smaller: bool,
    after: Option<(int, int)>,
    fetch: nat,
) -> Seq<T> {
    let rest = rows_beyond(table, rank, smaller, after);
    if rest.len() <= fetch {
        rest
    } else {
        rest.take(fetch as int)
    }
}

/// The pages that come of at most `rounds` calls, each for `limit` rows
/// and the first beyond `after`, where each call after the first goes
/// beyond the last row of the page before it.
pub open spec fn walk<T>(
    table: Seq<T>,
    rank: spec_fn(T) -> (int, int),
    smaller: bool,
    limit: nat,
    after: Option<(int, int)>,
    rounds: nat,
) -> Seq<Seq<T>>
    decreases rounds,
{
    if rounds == 0 {
        Seq::empty()
    } else {
        let rows = fetched(table, rank, smaller, after, limit + 1);
        let page = page_rows(rows, limit);
        if has_next(rows, limit) && page.len() > 0 {
            seq![page] + walk(
                table,
                rank,
                smaller,
                limit,
                Some(rank(page.last())),
                (rounds - 1) as nat,
            )
        } else {
            seq![page]
        }
    }
}

proof fn filter_keeps_all<T>(rows: Seq<T>, pred: spec_fn(T) -> bool)
    requires
        forall|i: int| 0 <= i < rows.len() ==> pred(#[trigger] rows[i]),
    ensures
        rows.filter(pred) == rows,
    decreases rows.len(),
{
    reveal(Seq::filter);
    if rows.len() > 0 {
        filter_keeps_all(rows.drop_last(), pred);
        assert(rows.drop_last().push(rows.last()) =~= rows);
    }
}

proof fn filter_keeps_none<T>(rows: Seq<T>, pred: spec_fn(T) -> bool)
    requires
        forall|i: int| 0 <= i < rows.len() ==> !pred(#[trigger] rows[i]),
    ensures
        rows.filter(pred) == Seq::<T>::empty(),
    decreases rows.len(),
{
    reveal(Seq::filter);
    if rows.len() > 0 {
        filter_keeps_none(rows.drop_last(), pred);
    }
}

proof fn ordered_pairs<T>(
    rows: Seq<T>,
    rank: spec_fn(T) -> (int, int),
    smaller: bool,
    i: int,
    j: int,
)
    requires
        ordered(rows, rank, smaller),
        0 <= i < j < rows.len(),
    ensures
        beyond(rank(rows[j]), rank(rows[i]), smaller),
    decreases j - i,
{
    if j > i + 1 {
        ordered_pairs(rows, rank, smaller, i, j - 1);
        assert(beyond(rank(rows[j - 1 + 1]), rank(rows[j - 1]), smaller));
    }
}

/// In an ordered table, the rows beyond the key of the row at `i` are the
/// rows that follow it.
proof fn beyond_row_is_rest<T>(
    table: Seq<T>,
    rank: spec_fn(T) -> (int, int),
    smaller: bool,
    i: int,
)
    requires
        ordered(table, rank, smaller),
        0 <= i < table.len(),
    ensures
        rows_beyond(table, rank, smaller, Some(rank(table[i]))) == table.skip(i + 1),
{
    let cursor = rank(table[i]);
    let pred = |row: T| beyond(rank(row), cursor, smaller);
    let head = table.take(i + 1);
    let tail = table.skip(i + 1);
    assert forall|k: int| 0 <= k < head.len() implies !pred(#[trigger] head[k]) by {
        if k < i {
            ordered_pairs(table, rank, smaller, k, i);
        }
    }
    assert forall|k: int| 0 <= k < tail.len() implies pred(#[trigger] tail[k]) by {
        ordered_pairs(table, rank, smaller, i, i + 1 + k);
    }
    filter_keeps_none(head, pred);
    filter_keeps_all(tail, pred);
    Seq::filter_distributes_over_add(head, tail, pred);
    assert(head + tail =~= table);
    assert(Seq::<T>::empty() + tail =~= tail);
}

/// The cursor that a walk holds when it has passed the first `i` rows.
spec fn cursor_at<T>(table: Seq<T>, rank: spec_fn(T) -> (int, int), i: int) -> Option<(int, int)> {
    if i == 0 {
        None
    } else {
        Some(rank(table[i - 1]))
    }
}

proof fn walk_from<T>(
    table: Seq<T>,
    rank: spec_fn(T) -> (int, int),
    smaller: bool,
    limit: nat,
    i: int,
    rounds: nat,
)
    requires
        ordered(table, rank, smaller),
        limit >= 1,
        0 <= i <= table.len(),
        rounds > table.len() - i,
    ensures
        walk(table, rank, smaller, limit, cursor_at(table, rank, i), rounds).flatten()
            == table.skip(i),
        forall|k: int|
            0 <= k < walk(table, rank, smaller, limit, cursor_at(table, rank, i), rounds).len()
                ==> (#[trigger] walk(
                table,
                rank,
                smaller,
                limit,
                cursor_at(table, rank, i),
                rounds,
            )[k]).len() <= limit,
    decreases table.len() - i,
{
    let after = cursor_at(table, rank, i);
    let rest = table.skip(i);
    if i > 0 {
        beyond_row_is_rest(table, rank, smaller, i - 1);
    } else {
        assert(table.skip(0) =~= table);
    }
    assert(rows_beyond(table, rank, smaller, after) == rest);
    let rows = fetched(table, rank, smaller, after, limit + 1);
    let page = page_rows(rows, limit);
    let pages = walk(table, rank, smaller, limit, after, rounds);
    if rest.len() <= limit {
        assert(pages =~= seq![rest]);
        pages.lemma_flatten_one_element();
    } else {
        assert(page =~= rest.take(limit as int));
        assert(rank(page.last()) == rank(table[i + limit - 1]));
        let next = walk(
            table,
            rank,
            smaller,
            limit,
            cursor_at(table, rank, i + limit),
            (rounds - 1) as nat,
        );
        walk_from(table, rank, smaller, limit, i + limit, (rounds - 1) as nat);
        assert(pages =~= seq![page] + next);
        assert(pages.drop_first() =~= next);
        assert(rest.take(limit as int) + table.skip(i + limit) =~= rest);
        assert(pages.flatten() =~= rest);
        assert forall|k: int| 0 <= k < pages.len() implies (#[trigger] pages[k]).len()
            <= limit by {
            if k > 0 {
                assert(pages[k] == next[k - 1]);
            }
        }
    }
}

/// Walking a table page by page yields the table: on a table that does not
/// change and whose rows are ordered by keys that differ from row to row,
/// the pages that come of calling with no cursor first and then with each
/// next cursor in turn are, one after the other, exactly the rows of the
/// table in their order, with no row twice and none left out; and no page
/// is longer than the limit.
pub proof fn walk_yields_table<T>(
    table: Seq<T>,
    rank: spec_fn(T) -> (int, int),
    order: Option<SortOrder>,
    limit: Option<u32>,
    rounds: nat,
)
    requires
        ordered(table, rank, scrolls_smaller(order)),
        rounds > table.len(),
    ensures
        walk(
            table,
            rank,
            scrolls_smaller(order),
            effective_limit(limit) as nat,
            None,
            rounds,
        ).flatten() == table,
        forall|k: int|
            0 <= k < walk(
                table,
                rank,
                scrolls_smaller(order),
                effective_limit(limit) as nat,
                None,
                rounds,
            ).len() ==> (#[trigger] walk(
                table,
                rank,
                scrolls_smaller(order),
                effective_limit(limit) as nat,
                None,
                rounds,
            )[k]).len() <= effective_limit(limit),
{
    walk_from(table, rank, scrolls_smaller(order), effective_limit(limit) as nat, 0, rounds);
    assert(table.skip(0) =~= table);
}

/// The rows of an ordered table have keys that differ from row to row.
pub proof fn ordered_keys_differ<T>(
    table: Seq<T>,
    rank: spec_fn(T) -> (int, int),
    smaller: bool,
    i: int,
    j: int,
)
    requires
        ordered(table, rank, smaller),
        0 <= i < j < table.len(),
    ensures
        rank(table[i]) != rank(table[j]),
{
    ordered_pairs(table, rank, smaller, i, j);
}

/// A page keeps the order of the rows it was cut from: where each row that
/// the store returned lies beyond the one before it, the same holds of the
/// rows of the page. In ascending order each key comes before the next, in
/// descending order after it.
pub proof fn page_keeps_order<T>(
    rows: Seq<T>,
    rank: spec_fn(T) -> (int, int),
    order: Option<SortOrder>,
    limit: Option<u32>,
)
    requires
        ordered(rows, rank, scrolls_smaller(order)),
    ensures
        ordered(page_rows(rows, effective_limit(limit) as nat), rank, scrolls_smaller(order)),
        forall|i: int|
            0 <= i < page_rows(rows, effective_limit(limit) as nat).len() - 1 ==> if order
                == Some(SortOrder::Desc) {
                precedes(
                    rank(page_rows(rows, effective_limit(limit) as nat)[i + 1]),
                    rank(#[trigger] page_rows(rows, effective_limit(limit) as nat)[i]),
                )
            } else {
                precedes(
                    rank(page_rows(rows, effective_limit(limit) as nat)[i]),
                    rank(page_rows(rows, effective_limit(limit) as nat)[i + 1]),
                )
            },
{
    let page = page_rows(rows, effective_limit(limit) as nat);
    assert forall|i: int| 0 <= i < page.len() - 1 implies beyond(
        rank(page[i + 1]),
        rank(#[trigger] page[i]),
        scrolls_smaller(order),
    ) by {
        assert(page[i] == rows[i]);
        assert(page[i + 1] == rows[i + 1]);
    }
}

/// A table of exactly as many rows as a page holds is served as one page
/// with no next cursor.
pub proof fn full_table_is_last_page<T>(
    table: Seq<T>,
    rank: spec_fn(T) -> (int, int),
    order: Option<SortOrder>,
    limit: Option<u32>,
)
    requires
        table.len() == effective_limit(limit),
    ensures
        ({
            let size = effective_limit(limit) as nat;
            let rows = fetched(table, rank, scrolls_smaller(order), None, size + 1);
            &&& page_rows(rows, size) == table
            &&& !has_next(rows, size)
        }),
{
}

/// A table of one row more than a page holds is served as two pages: the
/// first holds all rows but the last and has a next cursor; the second,
/// fetched beyond the last row of the first, holds the last row and has no
/// next cursor.
pub proof fn one_row_over_takes_two_pages<T>(
    table: Seq<T>,
    rank: spec_fn(T) -> (int, int),
    order: Option<SortOrder>,
    limit: Option<u32>,
)
    requires
        ordered(table, rank, scrolls_smaller(order)),
        table.len() == effective_limit(limit) + 1,
    ensures
        ({
            let size = effective_limit(limit) as nat;
            let smaller = scrolls_smaller(order);
            let first = fetched(table, rank, smaller, None, size + 1);
            let page = page_rows(first, size);
            let second = fetched(table, rank, smaller, Some(rank(page.last())), size + 1);
            &&& page == table.take(size as int)
            &&& has_next(first, size)
            &&& page_rows(second, size) == seq![table.last()]
            &&& !has_next(second, size)
        }),
{
    let size = effective_limit(limit) as nat;
    let smaller = scrolls_smaller(order);
    let first = fetched(table, rank, smaller, None, size + 1);
    let page = page_rows(first, size);
    assert(page.last() == table[size - 1]);
    beyond_row_is_rest(table, rank, smaller, size - 1);
    assert(table.skip(size as int) =~= seq![table.last()]);
}

} // verus!

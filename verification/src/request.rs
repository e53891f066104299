//! What a caller asks for and what it gets: the request, the page, and the
//! rules that turn the one into the other.

use vstd::prelude::*;

verus! {

/// The order in which the rows are walked.
#[derive(Clone, Copy, Debug, PartialEq, Eq, Structural)]
pub enum SortOrder {
    Asc,
    Desc,
}

/// The size of a page where the request names none, or one out of range.
pub const DEFAULT_LIMIT: u32 = 10;

/// The largest size of a page that a request can name.
pub const MAX_LIMIT: u32 = 100;

/// A request for one page.
#[derive(Debug)]
pub struct PaginationRequest {
    /// The cursor that the previous page came with; absent for the first
    /// page.
    pub cursor: Option<String>,
    /// The size of the page.
    pub limit: Option<u32>,
    /// Carried for the caller; not read here.
    pub sort_by: Option<String>,
    /// The order of the rows; ascending where absent.
    pub sort_order: Option<SortOrder>,
}

/// One page of rows, and the cursor for the page after it, where there is
/// one.
#[derive(Debug)]
pub struct PaginationResponse<T> {
    pub data: Vec<T>,
    pub next_cursor: Option<String>,
}

/// The size of the page for a request: the size it names where that lies
/// in `1..=100`, and 10 otherwise.
pub open spec fn effective_limit(limit: Option<u32>) -> u32 {
    match limit {
        Some(l) => if 0 < l <= MAX_LIMIT {
            l
        } else {
            DEFAULT_LIMIT
        },
        None => DEFAULT_LIMIT,
    }
}

/// Whether the rows are walked towards smaller keys: only where the request
/// asks for the descending order.
pub open spec fn scrolls_smaller(order: Option<SortOrder>) -> bool {
    order == Some(SortOrder::Desc)
}

/// The rows of the page, of the rows that came back for a request of
/// `limit + 1` rows: all but the last where all `limit + 1` came, and all
/// of them otherwise.
pub open spec fn page_rows<T>(rows: Seq<T>, limit: nat) -> Seq<T> {
    if rows.len() == limit + 1 {
        rows.take(limit as int)
    } else {
        rows
    }
}

/// Whether there are rows beyond the page: where all `limit + 1` rows that
/// were asked for came back.
pub open spec fn has_next<T>(rows: Seq<T>, limit: nat) -> bool {
    rows.len() == limit + 1
}

impl Clone for PaginationRequest {
    fn clone(&self) -> (res: Self)
        ensures
            res == *self,
    {
        PaginationRequest {
            cursor: match &self.cursor {
                Some(cursor) => Some(cursor.clone()),
                None => None,
            },
            limit: self.limit,
            sort_by: match &self.sort_by {
                Some(sort_by) => Some(sort_by.clone()),
                None => None,
            },
            sort_order: self.sort_order,
        }
    }
}

impl Default for PaginationRequest {
    /// The request for a first page of the default size, in ascending order.
    fn default() -> (res: Self)
        ensures
            res.cursor is None,
            res.limit is None,
            res.sort_by is None,
            res.sort_order is None,
    {
        PaginationRequest { cursor: None, limit: None, sort_by: None, sort_order: None }
    }
}

impl PaginationRequest {
    /// The size of the page.
    pub fn effective_limit(&self) -> (limit: u32)
        ensures
            limit == effective_limit(self.limit),
            1 <= limit <= MAX_LIMIT,
    {
        match self.limit {
            Some(l) => if l > 0 && l <= MAX_LIMIT {
                l
            } else {
                DEFAULT_LIMIT
            },
            None => DEFAULT_LIMIT,
        }
    }

    /// Whether the rows are walked towards smaller keys.
    pub fn scrolls_smaller(&self) -> (smaller: bool)
        ensures
            smaller == scrolls_smaller(self.sort_order),
    {
        match self.sort_order {
            Some(SortOrder::Desc) => true,
            _ => false,
        }
    }
}

impl<T> Default for PaginationResponse<T> {
    /// The empty last page.
    fn default() -> (res: Self)
        ensures
            res.data@.len() == 0,
            res.next_cursor is None,
    {
        PaginationResponse { data: Vec::new(), next_cursor: None }
    }
}

/// Parts the rows that came back for a request of `limit + 1` rows into
/// the page and the sign that more rows follow it.
pub fn split_rows<T>(rows: Vec<T>, limit: u32) -> (res: (Vec<T>, bool))
    ensures
        res.0@ == page_rows(rows@, limit as nat),
        res.1 == has_next(rows@, limit as nat),
{
    let ghost all = rows@;
    let mut rows = rows;
    if rows.len() > 0 && rows.len() - 1 == limit as usize {
        let _ = rows.pop();
        assert(rows@ =~= all.take(limit as int));
        (rows, true)
    } else {
        (rows, false)
    }
}

} // verus!

//! The pagination engine: from a request to the query that fetches a page,
//! and from the rows that came back to the page and its next cursor.

use vstd::prelude::*;
use std::marker::PhantomData;
use crate::cursor::{cursor_keys, cursor_text, decode, encode, invalid_cursor};
use crate::error::{Failure, PageError};
use crate::key::{parse_key, Key, KeyParse, Param};
use crate::query::{push_scan, query_params, query_text, scan_params, scan_text, PageQuery, Scan};
use crate::request::{
    effective_limit,
    has_next,
    page_rows,
    scrolls_smaller,
    split_rows,
    PaginationRequest,
    PaginationResponse,
    DEFAULT_LIMIT,
    MAX_LIMIT,
};

verus! {

/// Paginates rows of type `T` that are ordered by two columns. `F` tells the
/// texts of a row's two keys, from which the next cursor is made.
pub struct Paginator<T, F: Fn(&T) -> (String, String)> {
    keys_: (String, String),
    retrieve_keys_: Option<F>,
    request_: PaginationRequest,
    row_: PhantomData<T>,
}

/// The keys that the cursor of a request asks to go beyond: none without a
/// cursor, and otherwise the two texts that the cursor carries, each parsed
/// as the type of its column. A cursor that does not decode is refused, and
/// so is a text that its type refuses, the first before the second.
pub open spec fn after_of<K1: KeyParse, K2: KeyParse>(cursor: Option<String>) -> Result<
    Option<(Param, Param)>,
    Failure,
> {
    match cursor {
        None => Ok(None),
        Some(cursor) => match cursor_keys(cursor@) {
            None => Err(invalid_cursor()),
            Some((v1, v2)) => match K1::parsed(v1) {
                Err(reason) => Err(Failure::InvalidArgument(reason)),
                Ok(first) => match K2::parsed(v2) {
                    Err(reason) => Err(Failure::InvalidArgument(reason)),
                    Ok(second) => Ok(Some((first, second))),
                },
            },
        },
    }
}

/// The scan that fetches the page of a request: in the request's direction,
/// for one row more than the page holds, beyond the keys of its cursor.
pub open spec fn scan_of<K1: KeyParse, K2: KeyParse>(
    request: PaginationRequest,
    columns: (Seq<char>, Seq<char>),
) -> Result<Scan, Failure> {
    match after_of::<K1, K2>(request.cursor) {
        Ok(after) => Ok(
            Scan {
                smaller: scrolls_smaller(request.sort_order),
                fetch: (effective_limit(request.limit) + 1) as u32,
                columns,
                after,
            },
        ),
        Err(failure) => Err(failure),
    }
}

/// A request whose limit is 0 or above the maximum is served as one with no
/// limit: with the default size, and by the same scan.
pub proof fn limit_out_of_range_is_absent<K1: KeyParse, K2: KeyParse>(
    request: PaginationRequest,
    columns: (Seq<char>, Seq<char>),
)
    requires
        request.limit matches Some(limit) && (limit == 0 || limit > MAX_LIMIT),
    ensures
        effective_limit(request.limit) == DEFAULT_LIMIT,
        scan_of::<K1, K2>(request, columns) == scan_of::<K1, K2>(
            (PaginationRequest { limit: None, ..request }),
            columns,
        ),
{
}

/// Makes a page of its rows and the keys of its last row, where more rows
/// follow: the keys become the next cursor. Fails, with `Internal`, only
/// where the keys cannot be written as a cursor.
pub fn close_page<T>(data: Vec<T>, last_keys: Option<(String, String)>) -> (res: Result<
    PaginationResponse<T>,
    PageError,
>)
    ensures
        match res {
            Ok(page) => {
                &&& page.data == data
                &&& match last_keys {
                    None => page.next_cursor is None,
                    Some((v1, v2)) => {
                        &&& page.next_cursor matches Some(cursor)
                        &&& cursor_text(v1@, v2@) == Some(cursor@)
                        &&& cursor_keys(cursor@) == Some((v1@, v2@))
                    },
                }
            },
            Err(e) => {
                &&& e@ == Failure::Internal
                &&& last_keys matches Some((v1, v2))
                &&& cursor_text(v1@, v2@) is None
            },
        },
{
    match last_keys {
        None => Ok(PaginationResponse { data, next_cursor: None }),
        Some((v1, v2)) => match encode(v1.as_str(), v2.as_str()) {
            Ok(cursor) => Ok(PaginationResponse { data, next_cursor: Some(cursor) }),
            Err(_) => Err(PageError::internal()),
        },
    }
}

impl<T, F: Fn(&T) -> (String, String)> Paginator<T, F> {
    #[verifier::type_invariant]
    spec fn total(&self) -> bool {
        self.retrieve_keys_ matches Some(f) ==> forall|row: &T| call_requires(f, (row,))
    }

    /// The names of the two columns.
    pub closed spec fn columns(&self) -> (Seq<char>, Seq<char>) {
        (self.keys_.0@, self.keys_.1@)
    }

    /// The function that tells a row's keys, where one was given.
    pub closed spec fn extractor(&self) -> Option<F> {
        self.retrieve_keys_
    }

    /// The request that is served.
    pub closed spec fn served(&self) -> PaginationRequest {
        self.request_
    }

    /// Whether `keys` may be what the paginator takes for the keys of `row`:
    /// what the function that was given returns for it, and two empty texts
    /// where none was given.
    pub open spec fn extracts(&self, row: &T, keys: (String, String)) -> bool {
        match self.extractor() {
            Some(f) => call_ensures(f, (row,), keys),
            None => keys.0@ == Seq::<char>::empty() && keys.1@ == Seq::<char>::empty(),
        }
    }

    /// The size of the pages.
    pub open spec fn limit(&self) -> nat {
        effective_limit(self.served().limit) as nat
    }

    /// A paginator with empty column names, no key function, and the
    /// default request.
    pub fn new() -> (p: Self)
        ensures
            p.columns() == (Seq::<char>::empty(), Seq::<char>::empty()),
            p.extractor() is None,
            p.served().cursor is None,
            p.served().limit is None,
            p.served().sort_by is None,
            p.served().sort_order is None,
    {
        Paginator {
            keys_: (String::new(), String::new()),
            retrieve_keys_: None,
            request_: PaginationRequest::default(),
            row_: PhantomData,
        }
    }

    /// Sets the names of the two columns that the rows are ordered by.
    pub fn keys(self, key1: &str, key2: &str) -> (p: Self)
        ensures
            p.columns() == (key1@, key2@),
            p.extractor() == self.extractor(),
            p.served() == self.served(),
    {
        proof {
            use_type_invariant(&self);
        }
        Paginator {
            keys_: (key1.to_owned(), key2.to_owned()),
            retrieve_keys_: self.retrieve_keys_,
            request_: self.request_,
            row_: PhantomData,
        }
    }

    /// Sets the function that tells the texts of a row's two keys. It must
    /// be one that can be called on every row.
    pub fn retrieve_keys(self, f: F) -> (p: Self)
        requires
            forall|row: &T| call_requires(f, (row,)),
        ensures
            p.columns() == self.columns(),
            p.extractor() == Some(f),
            p.served() == self.served(),
    {
        Paginator {
            keys_: self.keys_,
            retrieve_keys_: Some(f),
            request_: self.request_,
            row_: PhantomData,
        }
    }

    /// Sets the request to serve.
    pub fn request(self, request: &PaginationRequest) -> (p: Self)
        ensures
            p.columns() == self.columns(),
            p.extractor() == self.extractor(),
            p.served() == *request,
    {
        proof {
            use_type_invariant(&self);
        }
        Paginator {
            keys_: self.keys_,
            retrieve_keys_: self.retrieve_keys_,
            request_: request.clone(),
            row_: PhantomData,
        }
    }

    /// Completes a statement that ends in a `WHERE` condition into the
    /// query that fetches the page of the request.
    ///
    /// The cursor's two texts are parsed as `K1` and `K2`. The statement
    /// gets the clauses of [`scan_of`] the request, and their values are
    /// bound after those it holds. The call fails exactly where the cursor
    /// or one of its texts is refused, with the failure that [`scan_of`]
    /// gives.
    pub fn prepare<'a, K1: KeyParse, K2: KeyParse>(&self, query: PageQuery<'a>) -> (res: Result<
        PageQuery<'a>,
        PageError,
    >)
        requires
            query_params(query) is Some,
        ensures
            match res {
                Ok(out) => {
                    &&& scan_of::<K1, K2>(self.served(), self.columns()) matches Ok(scan)
                    &&& query_text(out) == query_text(query) + scan_text(
                        scan,
                        query_params(query).unwrap().len(),
                    )
                    &&& query_params(out) == Some(
                        query_params(query).unwrap() + scan_params(scan),
                    )
                },
                Err(e) => scan_of::<K1, K2>(self.served(), self.columns()) == Err::<
                    Scan,
                    Failure,
                >(e@),
            },
    {
        let after: Option<(Key, Key)> = match &self.request_.cursor {
            None => None,
            Some(cursor) => {
                let (v1, v2) = match decode(cursor.as_str()) {
                    Ok(pair) => pair,
                    Err(e) => {
                        return Err(e);
                    },
                };
                let first = match parse_key::<K1>(v1) {
                    Ok(first) => first,
                    Err(e) => {
                        return Err(e);
                    },
                };
                let second = match parse_key::<K2>(v2) {
                    Ok(second) => second,
                    Err(e) => {
                        return Err(e);
                    },
                };
                Some((first.into_key(), second.into_key()))
            },
        };
        let smaller = self.request_.scrolls_smaller();
        let limit = self.request_.effective_limit();
        Ok(push_scan(query, smaller, limit + 1, self.keys_.0.clone(), self.keys_.1.clone(), after))
    }

    /// Whether `res` is what the paginator makes of the rows that the query
    /// of [`Self::prepare`] fetched.
    ///
    /// Where one row more than the page holds came back, that row is
    /// dropped, and the keys of the row before it are the next cursor;
    /// otherwise all rows are the page, and it is the last. There is a
    /// failure, `Internal`, only where those keys cannot be written as a
    /// cursor.
    pub open spec fn serves(
        &self,
        rows: Seq<T>,
        res: Result<PaginationResponse<T>, PageError>,
    ) -> bool {
        match res {
            Ok(page) => {
                &&& page.data@ == page_rows(rows, self.limit())
                &&& rows.len() <= self.limit() + 1 ==> page.data@.len() <= self.limit()
                &&& page.next_cursor is Some <==> rows.len() == self.limit() + 1
                &&& page.next_cursor matches Some(cursor) ==> exists|keys: (String, String)|
                    #[trigger] self.extracts(&rows[self.limit() - 1], keys) && cursor_text(
                        keys.0@,
                        keys.1@,
                    ) == Some(cursor@) && cursor_keys(cursor@) == Some((keys.0@, keys.1@))
            },
            Err(e) => {
                &&& e@ == Failure::Internal
                &&& has_next(rows, self.limit())
                &&& exists|keys: (String, String)| #[trigger]
                    self.extracts(&rows[self.limit() - 1], keys) && cursor_text(
                        keys.0@,
                        keys.1@,
                    ) is None
            },
        }
    }

    /// Makes the page of the rows that the query of [`Self::prepare`]
    /// fetched, as [`Self::serves`] says.
    pub fn finish(&self, rows: Vec<T>) -> (res: Result<PaginationResponse<T>, PageError>)
        ensures
            self.serves(rows@, res),
    {
        proof {
            use_type_invariant(self);
        }
        let limit = self.request_.effective_limit();
        let (data, more) = split_rows(rows, limit);
        if more {
            let last = &data[data.len() - 1];
            let keys = match &self.retrieve_keys_ {
                Some(f) => f(last),
                None => (String::new(), String::new()),
            };
            assert(self.extracts(&rows@[self.limit() - 1], keys));
            close_page(data, Some(keys))
        } else {
            close_page(data, None)
        }
    }

    /// Makes the page of what the store answered: of its rows as
    /// [`Self::finish`] does, and the failure `Internal`, with no page at
    /// all, where the store failed.
    pub fn conclude(&self, fetched: Result<Vec<T>, sqlx::Error>) -> (res: Result<
        PaginationResponse<T>,
        PageError,
    >)
        ensures
            match fetched {
                Ok(rows) => self.serves(rows@, res),
                Err(_) => res matches Err(e) && e@ == Failure::Internal,
            },
    {
        match fetched {
            Ok(rows) => self.finish(rows),
            Err(_) => Err(PageError::internal()),
        }
    }
}

} // verus!

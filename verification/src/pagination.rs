//! Pages of a query: which rows a page starts at, and what is sent back with
//! its rows.

use crate::containers::ListResponse;
use vstd::prelude::*;

verus! {

/// Rows on a page where nothing else is asked for.
pub const DEFAULT_PER_PAGE: i64 = 10;

/// A query together with the page that is wanted of it.
#[derive(Debug, Clone, Copy)]
pub struct Paginated<T> {
    query: T,
    page: i64,
    per_page: i64,
    offset: i64,
}

/// Number of rows that stand before a page: pages are counted from one.
pub open spec fn offset_of(page: i64, per_page: i64) -> int {
    (page - 1) * per_page
}

/// The offset of the page can be held in 64 bits.
pub open spec fn offset_fits(page: i64, per_page: i64) -> bool {
    page > i64::MIN && i64::MIN <= offset_of(page, per_page) <= i64::MAX
}

/// Anything that can be asked for page by page.
pub trait Paginate: Sized {
    /// Page `page` of `self`, with the default number of rows.
    fn paginate(self, page: i64) -> (paginated: Paginated<Self>)
        requires
            offset_fits(page, DEFAULT_PER_PAGE),
        ensures
            paginated.spec_query() == self,
            paginated.spec_page() == page,
            paginated.spec_per_page() == DEFAULT_PER_PAGE,
            paginated.spec_offset() == offset_of(page, DEFAULT_PER_PAGE),
    ;
}

impl<T> Paginate for T {
    fn paginate(self, page: i64) -> (paginated: Paginated<Self>) {
        Paginated {
            query: self,
            page,
            per_page: DEFAULT_PER_PAGE,
            offset: (page - 1) * DEFAULT_PER_PAGE,
        }
    }
}

impl<T> Paginated<T> {
    /// The query.
    pub closed spec fn spec_query(&self) -> T {
        self.query
    }

    /// The page, counted from one.
    pub closed spec fn spec_page(&self) -> i64 {
        self.page
    }

    /// Rows on a page.
    pub closed spec fn spec_per_page(&self) -> i64 {
        self.per_page
    }

    /// Rows before the page.
    pub closed spec fn spec_offset(&self) -> i64 {
        self.offset
    }

    /// Sets the number of rows on a page; the offset follows.
    #[must_use]
    pub fn per_page(self, per_page: i64) -> (paginated: Self)
        requires
            offset_fits(self.spec_page(), per_page),
        ensures
            paginated.spec_query() == self.spec_query(),
            paginated.spec_page() == self.spec_page(),
            paginated.spec_per_page() == per_page,
            paginated.spec_offset() == offset_of(self.spec_page(), per_page),
    {
        let offset = (self.page - 1) * per_page;
        Paginated { query: self.query, page: self.page, per_page, offset }
    }

    /// The query.
    pub fn query(&self) -> (query: &T)
        ensures
            *query == self.spec_query(),
    {
        &self.query
    }

    /// Gives up the query.
    pub fn into_query(self) -> (query: T)
        ensures
            query == self.spec_query(),
    {
        self.query
    }

    /// The page, counted from one.
    pub fn page(&self) -> (page: i64)
        ensures
            page == self.spec_page(),
    {
        self.page
    }

    /// Rows on a page: what goes after `LIMIT`.
    pub fn limit(&self) -> (per_page: i64)
        ensures
            per_page == self.spec_per_page(),
    {
        self.per_page
    }

    /// Rows before the page: what goes after `OFFSET`.
    pub fn offset(&self) -> (offset: i64)
        ensures
            offset == self.spec_offset(),
    {
        self.offset
    }
}

/// The page after `page`, where `page` is not the last.
pub open spec fn next_page_of(page: i64, total_pages: i64) -> Option<i64> {
    if page < total_pages {
        Some((page + 1) as i64)
    } else {
        None
    }
}

/// The count that the rows carry: every row carries the count of the whole
/// list, and a page without rows counts as an empty list.
pub open spec fn total_of<U>(results: Seq<(U, i64)>) -> i64 {
    if results.len() > 0 {
        results[0].1
    } else {
        0
    }
}

/// The rows without their counts.
pub open spec fn records_of<U>(results: Seq<(U, i64)>) -> Seq<U> {
    results.map_values(|row: (U, i64)| row.0)
}

/// The count that the rows of a page carry.
pub fn count_total<U>(results: &Vec<(U, i64)>) -> (total: i64)
    ensures
        total == total_of(results@),
{
    if results.len() > 0 {
        results[0].1
    } else {
        0
    }
}

/// What is sent back for a page: its rows, the size of the whole list in
/// rows and in pages, and the number of the next page where there is one.
pub fn list_response<U>(results: Vec<(U, i64)>, page: i64, total_pages: i64) -> (response:
    ListResponse<U>)
    ensures
        response.total == total_of(results@),
        response.total_pages == total_pages,
        response.next_page == next_page_of(page, total_pages),
        response.data@ == records_of(results@),
{
    let total = count_total(&results);
    let mut records: Vec<U> = Vec::new();
    for row in it: results.into_iter()
        invariant
            it.seq() == results@,
            records@ == records_of(results@.take(it.index())),
    {
        records.push(row.0);
        proof {
            assert(records@ =~= records_of(results@.take(it.index() + 1)));
        }
    }
    proof {
        assert(results@.take(results@.len() as int) == results@);
    }
    let next_page = if page < total_pages {
        Some(page + 1)
    } else {
        None
    };
    ListResponse { total, total_pages, next_page, data: records }
}

} // verus!

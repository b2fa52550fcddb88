//! Cursor-based pagination: how a paginated listing chooses its next request.
//!
//! The caller fetches pages; after each page the library decides whether there is a
//! next page and with which parameters to ask for it.

use vstd::prelude::*;
use crate::types::common::PaginationParams;

verus! {

/// Page size used when the initial parameters set no limit.
pub const DEFAULT_PAGE_LIMIT: u32 = 100;

/// The page size of a listing: the initial parameters' limit, else [`DEFAULT_PAGE_LIMIT`].
pub open spec fn spec_page_limit(initial: Option<PaginationParams>) -> u32 {
    match initial {
        Some(p) => match p.limit {
            Some(l) => l,
            None => DEFAULT_PAGE_LIMIT,
        },
        None => DEFAULT_PAGE_LIMIT,
    }
}

/// The page size of a listing that starts from `initial`.
pub fn page_limit(initial: &Option<PaginationParams>) -> (r: u32)
    ensures
        r == spec_page_limit(*initial),
{
    match initial {
        Some(p) => match p.limit {
            Some(l) => l,
            None => DEFAULT_PAGE_LIMIT,
        },
        None => DEFAULT_PAGE_LIMIT,
    }
}

/// The parameters of the first request: the initial ones, else all unset.
pub fn first_page_params(initial: Option<PaginationParams>) -> (r: PaginationParams)
    ensures
        match initial {
            Some(p) => r == p,
            None => r.before is None && r.after is None && r.limit is None && r.ascending is None,
        },
{
    match initial {
        Some(p) => p,
        None => PaginationParams::default(),
    }
}

/// Whether a page of `item_count` items, the last of which has cursor `last_cursor`,
/// may be followed by another: it was full (its size, as a `u32`, reached the limit)
/// and has a last cursor.
pub open spec fn page_has_more(limit: u32, item_count: usize, last_cursor: Option<String>) -> bool {
    (item_count as u32) >= limit && last_cursor is Some
}

/// Decides the request after a page fetched with `params`: `None` when the listing is
/// over, else the same parameters asking for the items after the page's last cursor,
/// with the `before` cursor cleared.
pub fn next_page_params(
    params: PaginationParams,
    limit: u32,
    item_count: usize,
    last_cursor: Option<String>,
) -> (r: Option<PaginationParams>)
    ensures
        page_has_more(limit, item_count, last_cursor) ==> (r matches Some(p) && p.after == last_cursor
            && p.before is None && p.limit == params.limit && p.ascending == params.ascending),
        !page_has_more(limit, item_count, last_cursor) ==> r is None,
{
    if (item_count as u32) >= limit && last_cursor.is_some() {
        Some(PaginationParams { after: last_cursor, before: None, ..params })
    } else {
        None
    }
}

/// Law: the page size is the limit of the initial parameters when one is set, and 100
/// whenever none is, whether initial parameters were given or not.
pub proof fn law_page_limit_default(initial: Option<PaginationParams>, l: u32)
    ensures
        (initial matches Some(p) && p.limit == Some(l)) ==> spec_page_limit(initial) == l,
        (initial is None || initial->0.limit is None) ==> spec_page_limit(initial) == 100,
{
}

/// Law: a listing asks for another page exactly after a full page that has a last
/// cursor: a page with fewer items than the limit, or without a last cursor, ends it,
/// and a page of exactly `limit` items with a last cursor does not.
pub proof fn law_page_has_more(limit: u32, item_count: usize, last_cursor: Option<String>)
    ensures
        item_count < limit ==> !page_has_more(limit, item_count, last_cursor),
        last_cursor is None ==> !page_has_more(limit, item_count, last_cursor),
        item_count == limit && last_cursor is Some ==> page_has_more(limit, item_count, last_cursor),
{
}

} // verus!

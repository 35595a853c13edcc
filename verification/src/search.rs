//! Paging through lists.

use vstd::prelude::*;

verus! {

/// The number of items on a page.
pub const PAGE_LIMIT: i32 = 20;

/// A request for one page of the exercises, counted from 1, that match a
/// query.
#[derive(Clone, Debug, PartialEq, Eq)]
pub struct ExercisesListInput {
    pub page: i32,
    pub query: Option<String>,
}

/// One page of a list.
#[derive(Clone, Debug, PartialEq, Eq)]
pub struct SearchResults<T> {
    /// The length of the whole list.
    pub total: i32,
    pub items: Vec<T>,
    /// The page that follows, where there is one.
    pub next_page: Option<i32>,
}

/// The page that follows page `page` of a list of `total` items: the next
/// number, where items are left beyond the page and the number can be
/// written.
pub open spec fn page_after(total: i32, page: i32) -> Option<i32> {
    if total - page * PAGE_LIMIT > 0 && page < i32::MAX {
        Some((page + 1) as i32)
    } else {
        None
    }
}

/// The page that follows page `page` of a list of `total` items.
pub fn next_page(total: i32, page: i32) -> (next: Option<i32>)
    ensures
        next == page_after(total, page),
{
    assert(page * PAGE_LIMIT == page * 20) by (nonlinear_arith)
        requires
            PAGE_LIMIT == 20,
    ;
    let shown: i64 = (page as i64) * (PAGE_LIMIT as i64);
    if (total as i64) - shown > 0 && page < i32::MAX {
        Some(page + 1)
    } else {
        None
    }
}

/// The number of items that stand before page `page`, where the page is
/// one: pages are counted from 1.
pub open spec fn offset_of(page: i32) -> Option<u64> {
    if page >= 1 {
        Some(((page - 1) * PAGE_LIMIT) as u64)
    } else {
        None
    }
}

/// The number of items that stand before page `page`.
pub fn page_offset(page: i32) -> (offset: Option<u64>)
    ensures
        offset == offset_of(page),
{
    assert((page - 1) * PAGE_LIMIT == (page - 1) * 20) by (nonlinear_arith)
        requires
            PAGE_LIMIT == 20,
    ;
    if page >= 1 {
        Some(((page - 1) as u64) * (PAGE_LIMIT as u64))
    } else {
        None
    }
}

impl ExercisesListInput {
    /// The number of exercises that stand before the page asked for.
    pub fn offset(&self) -> (offset: Option<u64>)
        ensures
            offset == offset_of(self.page),
    {
        page_offset(self.page)
    }
}

/// The page `page` of a list of `total` items, holding `items`.
pub fn search_results<T>(total: i32, items: Vec<T>, page: i32) -> (results: SearchResults<T>)
    ensures
        results.total == total,
        results.items == items,
        results.next_page == page_after(total, page),
{
    SearchResults { total, items, next_page: next_page(total, page) }
}

} // verus!

//! Pages of a list.
//!
//! A list is shown one page at a time. Pages are counted from 1 and all have
//! the same length; the last one that holds anything may be shorter, and every
//! page behind it is empty.

use vstd::prelude::*;

verus! {

/// How many items stand before page `page`, where a page holds `limit` items.
/// Page 0 stands for the first page.
pub open spec fn page_start(page: int, limit: int) -> int {
    if page >= 1 {
        (page - 1) * limit
    } else {
        0
    }
}

/// Page `page` of `items`: the `limit` items from [`page_start`] on, or as many
/// as there are.
pub open spec fn page_of<T>(items: Seq<T>, page: int, limit: int) -> Seq<T> {
    let start = page_start(page, limit);
    if start >= items.len() {
        Seq::empty()
    } else if start + limit >= items.len() {
        items.subrange(start, items.len() as int)
    } else {
        items.subrange(start, start + limit)
    }
}

/// Keeps page `page` of `items` and drops the rest.
pub fn paginate<T>(items: Vec<T>, page: usize, limit: usize) -> (shown: Vec<T>)
    ensures
        shown@ == page_of(items@, page as int, limit as int),
{
    let mut rest = items;
    let total = rest.len();
    let before = if page >= 1 {
        page - 1
    } else {
        0
    };
    match before.checked_mul(limit) {
        Some(start) if start < total => {
            let end = if limit >= total - start {
                total
            } else {
                start + limit
            };
            rest.truncate(end);
            rest.split_off(start)
        },
        _ => Vec::new(),
    }
}

/// A page is never longer than a page may be, and each of its items is the
/// item of the list at the same distance from the page's start: a page shows
/// a stretch of the list, in the list's order and without gaps.
pub proof fn lemma_page_is_a_stretch<T>(items: Seq<T>, page: int, limit: int)
    requires
        limit >= 0,
    ensures
        page_of(items, page, limit).len() <= limit,
        page_of(items, page, limit).len() <= items.len(),
        forall|i: int|
            0 <= i < page_of(items, page, limit).len() ==> {
                &&& page_start(page, limit) + i < items.len()
                &&& #[trigger] page_of(items, page, limit)[i] == items[page_start(page, limit) + i]
            },
{
    assert(page_start(page, limit) >= 0) by (nonlinear_arith)
        requires
            limit >= 0,
            page_start(page, limit) == if page >= 1 {
                (page - 1) * limit
            } else {
                0
            },
    ;
}

} // verus!

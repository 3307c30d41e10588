//! Page arithmetic for comment lists: one-based page numbers at the interface,
//! zero-based offsets underneath.

use vstd::prelude::*;

verus! {

/// A contiguous range of an ordered sequence, `limit` items starting at `offset`.
#[derive(Clone, Copy, Debug, PartialEq, Eq, Structural)]
pub struct Window {
    pub offset: i64,
    pub limit: i32,
}

/// The page actually served for a requested page: absent and non-positive
/// requests are served page one.
pub open spec fn normalized_page(requested: Option<i32>) -> int {
    match requested {
        Some(p) => if p <= 0 { 1 } else { p as int },
        None => 1,
    }
}

/// Offset of the first item of the page served for `requested`.
pub open spec fn window_offset(requested: Option<i32>, page_size: int) -> int {
    (normalized_page(requested) - 1) * page_size
}

/// The window served for `requested`, as a pair of mathematical integers.
pub open spec fn window_of(requested: Option<i32>, page_size: int) -> (int, int) {
    (window_offset(requested, page_size), page_size)
}

/// `n` pages of `page_size` items are enough to show `total` items.
pub open spec fn pages_cover(n: int, total: int, page_size: int) -> bool {
    n * page_size >= total
}

/// Number of page controls shown for `total` items: the quotient rounded up,
/// and never fewer than one.
pub open spec fn page_count(total: int, page_size: int) -> int
    recommends
        page_size > 0,
{
    if total <= 0 {
        1
    } else {
        (total + page_size - 1) / page_size
    }
}

/// Number of comments shown on one page of an article.
pub const COMMENT_PAGE_SIZE: i32 = 20;

/// Number of comments shown on one page of an article.
pub fn comment_page_size() -> (size: i32)
    ensures
        size == COMMENT_PAGE_SIZE,
{
    COMMENT_PAGE_SIZE
}

/// The page number to highlight for a request: the page that `window` serves.
pub fn current_page(requested: Option<i32>) -> (page: i32)
    ensures
        page == normalized_page(requested),
        page >= 1,
{
    match requested {
        Some(p) => if p <= 0 { 1 } else { p },
        None => 1,
    }
}

/// Maps a one-based page request to the zero-based window handed to storage.
pub fn window(requested_page: Option<i32>, page_size: i32) -> (w: Window)
    requires
        page_size > 0,
    ensures
        w.offset == window_offset(requested_page, page_size as int),
        w.limit == page_size,
        w.offset >= 0,
        w.limit > 0,
{
    let page: i32 = current_page(requested_page);
    let index: i64 = (page - 1) as i64;
    let size: i64 = page_size as i64;
    assert(0 <= index * size <= 0x7fff_ffff * 0x7fff_ffff) by (nonlinear_arith)
        requires
            0 <= index <= 0x7fff_ffff,
            0 < size <= 0x7fff_ffff,
    ;
    Window { offset: index * size, limit: page_size }
}

/// The page numbers to display for `total` items: `1, 2, ..., page_count`.
pub fn page_numbers(total: i32, page_size: i32) -> (pages: Vec<i32>)
    requires
        page_size > 0,
    ensures
        pages@.len() == page_count(total as int, page_size as int),
        forall|i: int| 0 <= i < pages@.len() ==> #[trigger] pages@[i] == i + 1,
{
    let count: i32 = if total <= 0 {
        1
    } else {
        let t: i64 = total as i64;
        let s: i64 = page_size as i64;
        let q: i64 = (t + s - 1) / s;
        assert(1 <= q <= t) by (nonlinear_arith)
            requires
                t >= 1,
                s >= 1,
                q == (t + s - 1) / (s as int),
        ;
        q as i32
    };
    let mut pages: Vec<i32> = Vec::new();
    let mut filled: i32 = 0;
    while filled < count
        invariant
            0 <= filled <= count,
            pages@.len() == filled,
            forall|i: int| 0 <= i < pages@.len() ==> #[trigger] pages@[i] == i + 1,
        decreases count - filled,
    {
        filled = filled + 1;
        pages.push(filled);
    }
    pages
}

/// The number of page controls is the rounded-up quotient of `total` by
/// `page_size`, but at least one: it is enough pages to show every item, and
/// no smaller positive number of pages is.
pub proof fn lemma_page_count_is_ceiling(total: int, page_size: int)
    requires
        page_size > 0,
        total >= 0,
    ensures
        page_count(total, page_size) >= 1,
        pages_cover(page_count(total, page_size), total, page_size),
        forall|n: int|
            1 <= n && #[trigger] pages_cover(n, total, page_size) ==> page_count(total, page_size)
                <= n,
        total % page_size == 0 && total > 0 ==> page_count(total, page_size) == total / page_size,
        total % page_size != 0 ==> page_count(total, page_size) == total / page_size + 1,
{
    let q = (total + page_size - 1) / page_size;
    let r = (total + page_size - 1) % page_size;
    assert(total + page_size - 1 == q * page_size + r && 0 <= r < page_size) by (nonlinear_arith)
        requires
            page_size > 0,
            q == (total + page_size - 1) / page_size,
            r == (total + page_size - 1) % page_size,
    ;
    assert(total > 0 ==> q >= 1) by (nonlinear_arith)
        requires
            page_size > 0,
            total + page_size - 1 == q * page_size + r,
            0 <= r < page_size,
    ;
    assert forall|n: int| 1 <= n && #[trigger] pages_cover(n, total, page_size) implies page_count(
        total,
        page_size,
    ) <= n by {
        if total > 0 && n < q {
            assert(n * page_size <= (q - 1) * page_size) by (nonlinear_arith)
                requires
                    n <= q - 1,
                    page_size > 0,
            ;
            assert((q - 1) * page_size == q * page_size - page_size) by (nonlinear_arith);
        }
    }
    let d = total / page_size;
    let m = total % page_size;
    assert(total == d * page_size + m && 0 <= m < page_size) by (nonlinear_arith)
        requires
            page_size > 0,
            d == total / page_size,
            m == total % page_size,
    ;
    assert(total > 0 ==> q == if m == 0 { d } else { d + 1 }) by (nonlinear_arith)
        requires
            page_size > 0,
            total == d * page_size + m,
            0 <= m < page_size,
            total + page_size - 1 == q * page_size + r,
            0 <= r < page_size,
    ;
}

/// Every request for a page at or below zero, and every request without a
/// page, is served the window of page one.
pub proof fn lemma_window_normalizes(requested: Option<i32>, page_size: int)
    requires
        requested matches Some(p) ==> p <= 0,
    ensures
        window_of(requested, page_size) == window_of(Some(1i32), page_size),
        window_of(requested, page_size) == (0int, page_size),
{
    assert(0 * page_size == 0) by (nonlinear_arith);
}

/// A request for page `p >= 1` is served `page_size` items starting at
/// `(p - 1) * page_size`; neither number is negative.
pub proof fn lemma_window_of_valid_page(p: i32, page_size: int)
    requires
        p >= 1,
        page_size > 0,
    ensures
        window_of(Some(p), page_size) == ((p - 1) * page_size, page_size),
        window_of(Some(p), page_size).0 >= 0,
        window_of(Some(p), page_size).1 > 0,
{
    assert((p - 1) * page_size >= 0) by (nonlinear_arith)
        requires
            p >= 1,
            page_size > 0,
    ;
}

/// Every page number displayed for a non-empty list starts inside the list:
/// no control leads to an empty page.
pub proof fn lemma_listed_pages_are_not_empty(total: int, page_size: int, p: i32)
    requires
        page_size > 0,
        total > 0,
        1 <= p <= page_count(total, page_size),
    ensures
        0 <= window_offset(Some(p), page_size) < total,
{
    lemma_page_count_is_ceiling(total, page_size);
    assert((p - 1) * page_size >= 0) by (nonlinear_arith)
        requires
            p >= 1,
            page_size > 0,
    ;
    if (p - 1) * page_size >= total {
        assert(pages_cover(p - 1, total, page_size));
        assert(p - 1 >= 1) by (nonlinear_arith)
            requires
                (p - 1) * page_size >= total,
                total > 0,
                page_size > 0,
        ;
    }
}

} // verus!

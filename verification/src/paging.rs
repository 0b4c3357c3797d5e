//! From the query string of a list request to the two numbers that the
//! statement takes.
//!
//! The statement's parameters are 64-bit signed integers, which is what the
//! database takes for a limit and an offset. No limit is too large: one that
//! 64 signed bits cannot hold is replaced by the largest that they can, which
//! is more rows than a table has, and so is an offset. Page 0 asks for the
//! negative offset `-limit`; the database refuses it, and the refusal
//! reaches the caller as any other failure does.

use vstd::prelude::*;
use crate::schema::FilterOptions;

verus! {

/// The limit of a request that names none.
pub const DEFAULT_LIMIT: usize = 10;

/// The page of a request that names none.
pub const DEFAULT_PAGE: usize = 1;

/// The integer itself where 64 signed bits hold it, else the nearest that
/// they hold.
pub open spec fn clamp_i64(value: int) -> int {
    if value < i64::MIN {
        i64::MIN as int
    } else if value > i64::MAX {
        i64::MAX as int
    } else {
        value
    }
}

/// The number of rows that a request asks for.
pub open spec fn limit_of(opts: FilterOptions) -> int {
    match opts.limit {
        Some(limit) => limit as int,
        None => DEFAULT_LIMIT as int,
    }
}

/// The page that a request asks for. The first page is page 1.
pub open spec fn page_of(opts: FilterOptions) -> int {
    match opts.page {
        Some(page) => page as int,
        None => DEFAULT_PAGE as int,
    }
}

/// The number of rows that come before the page that a request asks for.
pub open spec fn offset_of(opts: FilterOptions) -> int {
    (page_of(opts) - 1) * limit_of(opts)
}

/// The `LIMIT` and the `OFFSET` of a list statement.
#[derive(Clone, Copy, Debug, PartialEq, Eq)]
pub struct Window {
    pub limit: i64,
    pub offset: i64,
}

/// The window of a list request: the limit, 10 where none is given, and the
/// offset `(page - 1) * limit`, with page 1 where none is given.
pub fn window(opts: &FilterOptions) -> (window: Window)
    ensures
        window.limit == clamp_i64(limit_of(*opts)),
        window.offset == clamp_i64(offset_of(*opts)),
        page_of(*opts) == 1 ==> window.offset == 0,
{
    let limit: u64 = match opts.limit {
        Some(limit) => limit as u64,
        None => DEFAULT_LIMIT as u64,
    };
    let page: u64 = match opts.page {
        Some(page) => page as u64,
        None => DEFAULT_PAGE as u64,
    };
    let rows: i64 = if limit > i64::MAX as u64 {
        i64::MAX
    } else {
        limit as i64
    };
    let offset: i64 = if page == 0 {
        assert((page - 1) * limit == -limit) by (nonlinear_arith)
            requires
                page == 0,
        ;
        if limit > i64::MAX as u64 {
            i64::MIN
        } else {
            -(limit as i64)
        }
    } else {
        let before: u64 = page - 1;
        assert(before == 0 ==> before * limit == 0) by (nonlinear_arith);
        assert(0 <= before * limit <= 0xFFFF_FFFF_FFFF_FFFF * 0xFFFF_FFFF_FFFF_FFFF)
            by (nonlinear_arith)
            requires
                0 <= before <= 0xFFFF_FFFF_FFFF_FFFF,
                0 <= limit <= 0xFFFF_FFFF_FFFF_FFFF,
        ;
        let skipped: u128 = before as u128 * limit as u128;
        if skipped > i64::MAX as u128 {
            i64::MAX
        } else {
            skipped as i64
        }
    };
    Window { limit: rows, offset }
}

/// From page 1 on, a request whose limit and offset fit in 64 signed bits
/// asks for exactly `limit` rows after the `(page - 1) * limit` rows of the
/// pages before: no limit is read as a smaller one, and no page as an
/// earlier one.
pub proof fn lemma_window_is_exact(opts: FilterOptions)
    requires
        1 <= page_of(opts),
        limit_of(opts) <= i64::MAX,
        offset_of(opts) <= i64::MAX,
    ensures
        clamp_i64(limit_of(opts)) == limit_of(opts),
        clamp_i64(offset_of(opts)) == (page_of(opts) - 1) * limit_of(opts),
        0 <= clamp_i64(offset_of(opts)),
{
    assert(0 <= (page_of(opts) - 1) * limit_of(opts)) by (nonlinear_arith)
        requires
            0 <= page_of(opts) - 1,
            0 <= limit_of(opts),
    ;
}

/// A later page never starts before an earlier one, and a larger limit is
/// never handed on as a smaller one, whatever the sizes.
pub proof fn lemma_window_is_monotonic(first: FilterOptions, second: FilterOptions)
    requires
        1 <= page_of(first) <= page_of(second),
        limit_of(first) <= limit_of(second),
    ensures
        clamp_i64(limit_of(first)) <= clamp_i64(limit_of(second)),
        clamp_i64(offset_of(first)) <= clamp_i64(offset_of(second)),
{
    assert((page_of(first) - 1) * limit_of(first) <= (page_of(second) - 1) * limit_of(second))
        by (nonlinear_arith)
        requires
            0 <= page_of(first) - 1 <= page_of(second) - 1,
            0 <= limit_of(first) <= limit_of(second),
    ;
}

/// Page 0 asks for the offset `-limit`: below zero for every limit but 0,
/// and 0 for the limit 0.
pub proof fn lemma_page_zero_offset(opts: FilterOptions)
    requires
        page_of(opts) == 0,
        limit_of(opts) <= i64::MAX,
    ensures
        clamp_i64(offset_of(opts)) == -limit_of(opts),
        limit_of(opts) > 0 ==> clamp_i64(offset_of(opts)) < 0,
{
    assert(offset_of(opts) == -limit_of(opts)) by (nonlinear_arith)
        requires
            offset_of(opts) == (0 - 1) * limit_of(opts),
    ;
}

} // verus!

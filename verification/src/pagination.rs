//! From a page index to the window of rows to fetch, and from the rows
//! fetched to the page handed back.

use crate::fragment::{Atom, Datum, QueryFragment, Value};
use crate::text::{decimal, decimal_text};
use vstd::prelude::*;
use vstd::string::StringExecFns;

verus! {

/// Why a filter cannot be compiled.
#[derive(Clone, Copy, Debug, PartialEq, Eq, Structural)]
pub enum FilterError {
    /// The page index is negative, or its first row lies beyond what an offset
    /// can count.
    PageOutOfRange,
}

/// How a page is cut from the matching rows.
#[derive(Clone, Copy, Debug, PartialEq, Eq, Structural)]
pub enum Pagination {
    /// Fetch one page. The caller sees the end when a page comes back short.
    Plain,
    /// Fetch one row more than a page, to learn whether anything follows.
    OverFetch,
}

/// The rows to fetch: at most `limit` of them, after skipping `offset`.
#[derive(Clone, Copy, Debug, PartialEq, Eq, Structural)]
pub struct Window {
    pub limit: u64,
    pub offset: i64,
}

impl Pagination {
    /// The number of rows to ask for under this policy.
    pub open spec fn spec_limit(self, page_size: u32) -> u64 {
        match self {
            Pagination::Plain => page_size as u64,
            Pagination::OverFetch => (page_size + 1) as u64,
        }
    }

    /// The window of page `page`: it starts `page * page_size` rows in. There
    /// is none for a negative page, nor where that product is more than an
    /// offset can hold.
    pub open spec fn spec_window(self, page: i64, page_size: u32) -> Option<Window> {
        if 0 <= page && page * page_size <= i64::MAX {
            Some(Window { limit: self.spec_limit(page_size), offset: (page * page_size) as i64 })
        } else {
            None
        }
    }

    /// The number of rows to ask for under this policy.
    pub fn limit(self, page_size: u32) -> (limit: u64)
        ensures
            limit == self.spec_limit(page_size),
    {
        match self {
            Pagination::Plain => page_size as u64,
            Pagination::OverFetch => page_size as u64 + 1,
        }
    }

    /// The window of page `page`.
    pub fn window(self, page: i64, page_size: u32) -> (window: Option<Window>)
        ensures
            window == self.spec_window(page, page_size),
    {
        if page < 0 {
            return None;
        }
        assert(page * page_size <= 0x7fff_ffff_ffff_ffff * 0xffff_ffff) by (nonlinear_arith)
            requires
                0 <= page <= 0x7fff_ffff_ffff_ffff,
                0 <= page_size <= 0xffff_ffff,
        ;
        assert(0 <= page * page_size) by (nonlinear_arith)
            requires
                0 <= page,
                0 <= page_size,
        ;
        let first: i128 = (page as i128) * (page_size as i128);
        if first > i64::MAX as i128 {
            return None;
        }
        Some(Window { limit: self.limit(page_size), offset: first as i64 })
    }
}

/// ` LIMIT n OFFSET ?`: the limit written into the text, the offset bound.
pub open spec fn spec_limit_offset(window: Window) -> Seq<Atom> {
    seq![
        Atom::Text(" LIMIT "@ + decimal(window.limit as nat) + " OFFSET "@),
        Atom::Bind(Datum::BigInt(window.offset)),
    ]
}

/// The clause that restricts a statement to `window`.
pub fn limit_offset(window: Window) -> (clause: QueryFragment)
    ensures
        clause@ == spec_limit_offset(window),
{
    let limit = decimal_text(window.limit);
    let head = String::from_str(" LIMIT ").concat(limit.as_str()).concat(" OFFSET ");
    let mut clause = QueryFragment::text(head.as_str());
    clause.push_bind(Value::BigInt(window.offset));
    assert(clause@ =~= spec_limit_offset(window));
    clause
}

/// The page cut from rows that were fetched one beyond the page size: whether
/// the rows end here, and the rows to hand back. More than a page came back
/// exactly when more rows remain; the last fetched row is then dropped.
pub open spec fn spec_trim<T>(rows: Seq<T>, page_size: u32) -> (bool, Seq<T>) {
    if rows.len() <= page_size {
        (true, rows)
    } else {
        (false, rows.drop_last())
    }
}

/// Cuts the page from rows that were fetched one beyond the page size.
pub fn trim<T>(rows: Vec<T>, page_size: u32) -> (page: (bool, Vec<T>))
    ensures
        (page.0, page.1@) == spec_trim(rows@, page_size),
{
    let mut rows = rows;
    let eof = rows.len() as u64 <= page_size as u64;
    if !eof {
        rows.pop();
    }
    (eof, rows)
}

/// What a store holding `rows`, in order, hands back for `window`: the rows
/// from the offset on, as many as the limit allows and the store has.
pub open spec fn spec_fetch<T>(rows: Seq<T>, window: Window) -> Seq<T> {
    let first = if window.offset <= rows.len() {
        window.offset as int
    } else {
        rows.len() as int
    };
    let end = if first + window.limit <= rows.len() {
        first + window.limit
    } else {
        rows.len() as int
    };
    rows.subrange(first, end)
}

/// Fetching one row beyond the page tells the end exactly: cut from what the
/// store hands back for the window of a page, the rows are those of that page
/// and no other, and they are said to end exactly when no row lies beyond the
/// page.
pub proof fn eof_tells_the_end<T>(rows: Seq<T>, page: i64, page_size: u32)
    requires
        Pagination::OverFetch.spec_window(page, page_size) is Some,
    ensures
        ({
            let window = Pagination::OverFetch.spec_window(page, page_size)->Some_0;
            let plain = Pagination::Plain.spec_window(page, page_size)->Some_0;
            let (eof, kept) = spec_trim(spec_fetch(rows, window), page_size);
            &&& eof == (rows.len() <= window.offset + page_size)
            &&& kept == spec_fetch(rows, plain)
            &&& kept.len() <= page_size
        }),
{
    let window = Pagination::OverFetch.spec_window(page, page_size)->Some_0;
    let plain = Pagination::Plain.spec_window(page, page_size)->Some_0;
    let fetched = spec_fetch(rows, window);
    let (eof, kept) = spec_trim(fetched, page_size);
    assert(kept =~= spec_fetch(rows, plain));
}

} // verus!

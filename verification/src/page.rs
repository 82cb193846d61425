//! The position of one page in a listing.

use vstd::prelude::*;

verus! {

/// Whether `page` and `per_page` name a page: a page number from zero, a
/// positive page size, and an offset that an `i64` can hold.
pub open spec fn names_a_page(page: i64, per_page: i64) -> bool {
    0 <= page && 0 < per_page && page * per_page <= i64::MAX
}

/// Which page of a listing to read, and how long a page is.
#[derive(Debug, Clone, Copy, PartialEq, Eq)]
pub struct PageCursor {
    page: i64,
    per_page: i64,
}

/// A `PageCursor` as its two numbers.
pub struct PageCursorView {
    pub page: i64,
    pub per_page: i64,
}

impl PageCursorView {
    /// The number of rows that come before the page.
    pub open spec fn offset(self) -> int {
        self.page * self.per_page
    }

    /// Whether the two numbers name a page. Every `PageCursor` does.
    pub open spec fn valid(self) -> bool {
        names_a_page(self.page, self.per_page)
    }
}

impl View for PageCursor {
    type V = PageCursorView;

    closed spec fn view(&self) -> PageCursorView {
        PageCursorView { page: self.page, per_page: self.per_page }
    }
}

impl PageCursor {
    #[verifier::type_invariant]
    spec fn well_formed(&self) -> bool {
        names_a_page(self.page, self.per_page)
    }

    /// The cursor for page number `page` of pages `per_page` long, where the
    /// two name a page.
    pub fn new(page: i64, per_page: i64) -> (cursor: Option<PageCursor>)
        ensures
            cursor is Some <==> names_a_page(page, per_page),
            cursor matches Some(c) ==> c@ == (PageCursorView { page, per_page }),
    {
        if page < 0 || per_page <= 0 {
            return None;
        }
        match page.checked_mul(per_page) {
            Some(_) => Some(PageCursor { page, per_page }),
            None => {
                assert(page * per_page >= 0) by (nonlinear_arith)
                    requires
                        page >= 0,
                        per_page > 0,
                ;
                None
            },
        }
    }

    pub fn page(&self) -> (page: i64)
        ensures
            page == self@.page,
    {
        self.page
    }

    /// The page size, which is also the limit of the page's query.
    pub fn per_page(&self) -> (per_page: i64)
        ensures
            per_page == self@.per_page,
    {
        self.per_page
    }

    /// The number of rows that come before the page.
    pub fn offset(&self) -> (offset: i64)
        ensures
            self@.valid(),
            offset == self@.offset(),
    {
        proof {
            use_type_invariant(self);
            assert(self.page * self.per_page >= 0) by (nonlinear_arith)
                requires
                    self.page >= 0,
                    self.per_page > 0,
            ;
        }
        self.page * self.per_page
    }
}

} // verus!

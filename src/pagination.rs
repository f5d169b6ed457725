//! Page windows: what a listing asks for, and what it answers.

use vstd::prelude::*;

verus! {

/// Largest page size.
pub const MAX_PAGE_SIZE: u64 = 100;

/// Page size used when none is asked for.
pub const DEFAULT_PAGE_SIZE: u64 = 10;

/// The page number that a request for `page` is served as.
pub open spec fn clamp_page(page: u64) -> u64 {
    if page == 0 {
        1
    } else {
        page
    }
}

/// The page size that a request for `size` is served as.
pub open spec fn clamp_size(size: u64) -> u64 {
    if size == 0 {
        DEFAULT_PAGE_SIZE
    } else if size > MAX_PAGE_SIZE {
        MAX_PAGE_SIZE
    } else {
        size
    }
}

/// How many pages of `size` items hold `total` items: `ceil(total / size)`,
/// and 0 when there are no items.
pub open spec fn page_count(total: u64, size: u64) -> int {
    if total == 0 {
        0
    } else {
        (total + size - 1) as int / size as int
    }
}

/// A 1-based page number and a page size between 1 and 100.
#[derive(Debug, Clone, Copy)]
pub struct PageRequest {
    page: u64,
    size: u64,
}

impl View for PageRequest {
    /// The page number and the page size.
    type V = (u64, u64);

    closed spec fn view(&self) -> (u64, u64) {
        (self.page, self.size)
    }
}

impl PageRequest {
    #[verifier::type_invariant]
    spec fn inv(self) -> bool {
        &&& self.page >= 1
        &&& 1 <= self.size <= MAX_PAGE_SIZE
    }

    /// Page 0 becomes page 1; size 0 becomes 10, and sizes above 100 become
    /// 100.
    pub fn new(page: u64, size: u64) -> (r: PageRequest)
        ensures
            r@ == (clamp_page(page), clamp_size(size)),
    {
        let page = if page == 0 {
            1
        } else {
            page
        };
        let size = if size == 0 {
            DEFAULT_PAGE_SIZE
        } else if size > MAX_PAGE_SIZE {
            MAX_PAGE_SIZE
        } else {
            size
        };
        PageRequest { page, size }
    }

    pub fn page(&self) -> (r: u64)
        ensures
            r == self@.0,
            r >= 1,
    {
        proof {
            use_type_invariant(self);
        }
        self.page
    }

    pub fn size(&self) -> (r: u64)
        ensures
            r == self@.1,
            1 <= r <= MAX_PAGE_SIZE,
    {
        proof {
            use_type_invariant(self);
        }
        self.size
    }

    /// How many items come before the page: `(page - 1) * size`.
    pub fn offset(&self) -> (r: u64)
        requires
            (self@.0 - 1) * self@.1 <= u64::MAX,
        ensures
            r == (self@.0 - 1) * self@.1,
    {
        proof {
            use_type_invariant(self);
        }
        (self.page - 1) * self.size
    }
}

impl Default for PageRequest {
    fn default() -> (r: PageRequest)
        ensures
            r@ == (1u64, DEFAULT_PAGE_SIZE),
    {
        PageRequest::new(1, DEFAULT_PAGE_SIZE)
    }
}

/// One page of a listing, with where it stands in the whole.
#[derive(Debug)]
pub struct PageResponse<T> {
    pub items: Vec<T>,
    pub page: u64,
    pub size: u64,
    pub total: u64,
    pub pages: u64,
}

impl<T> PageResponse<T> {
    /// A page of `items` out of `total`, with its page count.
    pub fn new(items: Vec<T>, page: u64, size: u64, total: u64) -> (r: PageResponse<T>)
        requires
            total == 0 || size > 0,
        ensures
            r.items@ == items@,
            r.page == page,
            r.size == size,
            r.total == total,
            r.pages == page_count(total, size),
    {
        let pages: u64 = if total == 0 {
            0
        } else {
            let q = total / size;
            let rem = total % size;
            assert(q * size + rem == total && rem < size) by (nonlinear_arith)
                requires
                    q == total / size,
                    rem == total % size,
                    size > 0,
            ;
            assert(q as int + (if rem == 0 { 0int } else { 1int }) == (total + size - 1) as int
                / size as int) by (nonlinear_arith)
                requires
                    q * size + rem == total,
                    rem < size,
                    size > 0,
                    total > 0,
            ;
            assert(rem > 0 ==> q < u64::MAX) by (nonlinear_arith)
                requires
                    q * size + rem == total,
                    size > 0,
            ;
            if rem == 0 {
                q
            } else {
                q + 1
            }
        };
        PageResponse { items, page, size, total, pages }
    }

    /// A page with no items out of none.
    pub fn empty(page: u64, size: u64) -> (r: PageResponse<T>)
        ensures
            r.items@.len() == 0,
            r.page == page,
            r.size == size,
            r.total == 0,
            r.pages == 0,
    {
        PageResponse::new(Vec::new(), page, size, 0)
    }

    /// Applies `f` to each item, in order, and keeps the page figures.
    pub fn map<U, F: Fn(T) -> U>(self, f: F) -> (r: PageResponse<U>)
        requires
            forall|i: int| 0 <= i < self.items@.len() ==> f.requires((self.items@[i],)),
        ensures
            r.items@.len() == self.items@.len(),
            forall|i: int|
                0 <= i < r.items@.len() ==> f.ensures((self.items@[i],), #[trigger] r.items@[i]),
            r.page == self.page,
            r.size == self.size,
            r.total == self.total,
            r.pages == self.pages,
    {
        let PageResponse { items, page, size, total, pages } = self;
        let ghost orig = items@;
        let n = items.len();
        let mut rest = items;
        let mut rev: Vec<T> = Vec::new();
        while rest.len() > 0
            invariant
                n == orig.len(),
                rest.len() + rev.len() == n,
                forall|j: int| 0 <= j < rest.len() ==> rest@[j] == orig[j],
                forall|j: int| 0 <= j < rev.len() ==> rev@[j] == orig[n - 1 - j],
            decreases rest.len(),
        {
            let x = rest.pop().unwrap();
            rev.push(x);
        }
        let mut out: Vec<U> = Vec::new();
        while rev.len() > 0
            invariant
                n == orig.len(),
                rev.len() + out.len() == n,
                forall|j: int| 0 <= j < n ==> f.requires((orig[j],)),
                forall|j: int| 0 <= j < rev.len() ==> rev@[j] == orig[n - 1 - j],
                forall|j: int| 0 <= j < out.len() ==> f.ensures((orig[j],), #[trigger] out@[j]),
            decreases rev.len(),
        {
            let x = rev.pop().unwrap();
            let y = f(x);
            out.push(y);
        }
        PageResponse { items: out, page, size, total, pages }
    }
}

/// Page query parameters as they arrive, before clamping.
#[derive(Debug, Clone, Copy)]
pub struct PaginationQuery {
    pub page: u64,
    pub size: u64,
}

/// Page number used when the query names none.
pub fn default_page() -> (r: u64)
    ensures
        r == 1,
{
    1
}

/// Page size used when the query names none.
pub fn default_size() -> (r: u64)
    ensures
        r == DEFAULT_PAGE_SIZE,
{
    DEFAULT_PAGE_SIZE
}

impl PageRequest {
    /// The request that a query stands for (see [`PageRequest::new`]).
    pub fn from_query(query: PaginationQuery) -> (r: PageRequest)
        ensures
            r@ == (clamp_page(query.page), clamp_size(query.size)),
    {
        PageRequest::new(query.page, query.size)
    }
}

impl PaginationQuery {
    /// The query that names a request's page and size.
    pub fn from_request(request: PageRequest) -> (r: PaginationQuery)
        ensures
            r.page == request@.0,
            r.size == request@.1,
    {
        PaginationQuery { page: request.page(), size: request.size() }
    }
}

} // verus!

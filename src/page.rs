//! Optional page parameters and the plain page result of listings.

use vstd::prelude::*;
use crate::pagination::DEFAULT_PAGE_SIZE;

verus! {

/// Page number and page size, either of which may be missing.
#[derive(Debug, Clone, Copy)]
pub struct PageParams {
    page: Option<u64>,
    page_size: Option<u64>,
}

impl View for PageParams {
    /// The page number and page size as given.
    type V = (Option<u64>, Option<u64>);

    closed spec fn view(&self) -> (Option<u64>, Option<u64>) {
        (self.page, self.page_size)
    }
}

/// The page number that the parameters stand for: 1 when missing.
pub open spec fn params_page(p: (Option<u64>, Option<u64>)) -> u64 {
    match p.0 {
        Some(n) => n,
        None => 1,
    }
}

/// The page size that the parameters stand for: 10 when missing.
pub open spec fn params_page_size(p: (Option<u64>, Option<u64>)) -> u64 {
    match p.1 {
        Some(n) => n,
        None => DEFAULT_PAGE_SIZE,
    }
}

impl PageParams {
    pub fn new(page: Option<u64>, page_size: Option<u64>) -> (r: PageParams)
        ensures
            r@ == (page, page_size),
    {
        PageParams { page, page_size }
    }

    pub fn page(&self) -> (r: u64)
        ensures
            r == params_page(self@),
    {
        match self.page {
            Some(n) => n,
            None => 1,
        }
    }

    pub fn page_size(&self) -> (r: u64)
        ensures
            r == params_page_size(self@),
    {
        match self.page_size {
            Some(n) => n,
            None => DEFAULT_PAGE_SIZE,
        }
    }

    /// How many items come before the page: `(page - 1) * page_size`.
    pub fn offset(&self) -> (r: u64)
        requires
            params_page(self@) >= 1,
            (params_page(self@) - 1) * params_page_size(self@) <= u64::MAX,
        ensures
            r == (params_page(self@) - 1) * params_page_size(self@),
    {
        (self.page() - 1) * self.page_size()
    }
}

/// One page of items, with the parameters that asked for it and the total.
#[derive(Debug)]
pub struct PageResult<T> {
    pub page: u64,
    pub page_size: u64,
    pub total: u64,
    pub items: Vec<T>,
}

impl<T> PageResult<T> {
    pub fn new(page_params: PageParams, total: u64, items: Vec<T>) -> (r: PageResult<T>)
        ensures
            r.page == params_page(page_params@),
            r.page_size == params_page_size(page_params@),
            r.total == total,
            r.items@ == items@,
    {
        PageResult { total, page: page_params.page(), page_size: page_params.page_size(), items }
    }
}

} // verus!

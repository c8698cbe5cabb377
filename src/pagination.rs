//! Page selection for list endpoints.

use vstd::prelude::*;

verus! {

/// Page used where the request names none; pages count from one.
pub const DEFAULT_PAGINATION_PAGE: usize = 1;

/// Number of entities on a page where the request names none.
pub const DEFAULT_PAGINATION_LIMIT: usize = 10;

/// A page number and a page size, both at least one.
pub struct PaginationView {
    pub page: nat,
    pub limit: nat,
}

/// A validated page selection.
#[derive(Clone, Copy, Debug, PartialEq, Eq)]
pub struct Pagination {
    page: usize,
    limit: usize,
}

impl View for Pagination {
    type V = PaginationView;

    closed spec fn view(&self) -> PaginationView {
        PaginationView { page: self.page as nat, limit: self.limit as nat }
    }
}

impl Pagination {
    #[verifier::type_invariant]
    spec fn inv(&self) -> bool {
        self.page >= 1 && self.limit >= 1
    }

    pub fn page(&self) -> (r: usize)
        ensures
            r == self@.page,
            r >= 1,
    {
        proof {
            use_type_invariant(self);
        }
        self.page
    }

    pub fn limit(&self) -> (r: usize)
        ensures
            r == self@.limit,
            r >= 1,
    {
        proof {
            use_type_invariant(self);
        }
        self.limit
    }
}

#[derive(Clone, Copy, Debug, PartialEq, Eq, Structural)]
pub enum PaginationBuilderError {
    PageIsZero,
    LimitIsZero,
}

/// Collects a page selection; `build` checks it.
#[derive(Clone, Copy, Debug)]
pub struct PaginationBuilder {
    page: usize,
    limit: usize,
}

impl View for PaginationBuilder {
    type V = PaginationView;

    closed spec fn view(&self) -> PaginationView {
        PaginationView { page: self.page as nat, limit: self.limit as nat }
    }
}

/// What `build` gives for the page and size collected: a zero page is
/// refused first, then a zero size.
pub open spec fn pagination_result(b: PaginationView, r: Result<Pagination, PaginationBuilderError>) -> bool {
    if b.page == 0 {
        r == Err::<Pagination, PaginationBuilderError>(PaginationBuilderError::PageIsZero)
    } else if b.limit == 0 {
        r == Err::<Pagination, PaginationBuilderError>(PaginationBuilderError::LimitIsZero)
    } else {
        r matches Ok(p) && p@ == b
    }
}

impl PaginationBuilder {
    /// Starts from the first page of the default size.
    pub fn new() -> (r: PaginationBuilder)
        ensures
            r@ == (PaginationView {
                page: DEFAULT_PAGINATION_PAGE as nat,
                limit: DEFAULT_PAGINATION_LIMIT as nat,
            }),
    {
        PaginationBuilder { page: DEFAULT_PAGINATION_PAGE, limit: DEFAULT_PAGINATION_LIMIT }
    }

    pub fn page(self, page: usize) -> (r: PaginationBuilder)
        ensures
            r@ == (PaginationView { page: page as nat, limit: self@.limit }),
    {
        PaginationBuilder { page, limit: self.limit }
    }

    pub fn limit(self, limit: usize) -> (r: PaginationBuilder)
        ensures
            r@ == (PaginationView { page: self@.page, limit: limit as nat }),
    {
        PaginationBuilder { page: self.page, limit }
    }

    pub fn build(self) -> (r: Result<Pagination, PaginationBuilderError>)
        ensures
            pagination_result(self@, r),
    {
        if self.page == 0 {
            return Err(PaginationBuilderError::PageIsZero);
        }
        if self.limit == 0 {
            return Err(PaginationBuilderError::LimitIsZero);
        }
        Ok(Pagination { page: self.page, limit: self.limit })
    }
}

impl Default for PaginationBuilder {
    fn default() -> (r: PaginationBuilder)
        ensures
            r@ == (PaginationView {
                page: DEFAULT_PAGINATION_PAGE as nat,
                limit: DEFAULT_PAGINATION_LIMIT as nat,
            }),
    {
        PaginationBuilder::new()
    }
}

/// Page and size as a request gives them, each optional.
#[derive(Clone, Copy, Debug, PartialEq, Eq, Structural)]
pub struct HttpPaginationParams {
    pub page: Option<usize>,
    pub limit: Option<usize>,
}

/// A field that the request leaves out takes its default.
pub open spec fn requested_view(p: HttpPaginationParams) -> PaginationView {
    PaginationView {
        page: match p.page {
            Some(n) => n as nat,
            None => DEFAULT_PAGINATION_PAGE as nat,
        },
        limit: match p.limit {
            Some(n) => n as nat,
            None => DEFAULT_PAGINATION_LIMIT as nat,
        },
    }
}

impl HttpPaginationParams {
    /// Normalizes the request's page selection.
    pub fn to_pagination(self) -> (r: Result<Pagination, PaginationBuilderError>)
        ensures
            pagination_result(requested_view(self), r),
    {
        let mut builder = PaginationBuilder::new();
        if let Some(limit) = self.limit {
            builder = builder.limit(limit);
        }
        if let Some(page) = self.page {
            builder = builder.page(page);
        }
        builder.build()
    }
}

/// Index of the first entity of the page in the whole ordered list.
pub open spec fn page_offset(p: PaginationView) -> int {
    (p.page - 1) * p.limit
}

} // verus!

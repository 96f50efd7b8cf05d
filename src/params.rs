//! API parameters.

use crate::patch::Patch;
use vstd::prelude::*;

verus! {

/// The most nodes that one page of a listing may hold.
pub const MAX_PAGE_LIMIT: u32 = 20;

/// Request query parameters for listing nodes.
#[derive(Clone, Copy, Debug)]
pub struct ListNodes {
    /// The page asked for, counted from 1.
    pub page: u32,
    /// How many nodes a page holds.
    pub limit: u32,
}

impl Default for ListNodes {
    /// The first page, as large as a page may be.
    fn default() -> (r: ListNodes)
        ensures
            r.page == 1,
            r.limit == MAX_PAGE_LIMIT,
    {
        ListNodes { page: 1, limit: MAX_PAGE_LIMIT }
    }
}

impl ListNodes {
    /// Whether the page is counted from 1 and holds no more than a page may.
    pub open spec fn in_bounds(&self) -> bool {
        self.page >= 1 && self.limit <= MAX_PAGE_LIMIT
    }

    /// How many rows to take and how many to skip for this page.
    pub fn limit_offset(&self) -> (r: (i64, i64))
        requires
            self.in_bounds(),
        ensures
            r.0 == self.limit,
            r.1 == (self.page - 1) * self.limit,
    {
        let limit = self.limit as i64;
        let skipped = (self.page - 1) as i64;
        assert(0 <= skipped * limit <= 0xffff_ffff * 20) by (nonlinear_arith)
            requires
                0 <= skipped <= 0xffff_ffff,
                0 <= limit <= 20,
        ;
        (limit, skipped * limit)
    }
}

/// Request body parameters for updating a node.
#[derive(Clone, Debug)]
pub struct UpdateNode {
    /// The new namespace, or that it is to be removed, or neither.
    pub namespace: Patch<String>,
    /// The new title, if any.
    pub title: Option<String>,
    /// The new body, if any.
    pub body: Option<String>,
}

/// Request body parameters for creating a node.
#[derive(Clone, Debug)]
pub struct CreateNode {
    /// The namespace of the node, if any.
    pub namespace: Option<String>,
    /// The title of the node.
    pub title: String,
    /// The body of the node.
    pub body: String,
}

} // verus!

//! Response envelopes and pagination values handed to the routing layer.

use vstd::prelude::*;
use vstd::string::StringExecFns;

verus! {

/// The uniform response envelope: a code, a message and an optional payload.
#[derive(Debug)]
pub struct ApiResponse<T> {
    pub code: u16,
    pub message: String,
    pub data: Option<T>,
}

impl<T> ApiResponse<T> {
    /// An envelope with every field as given.
    pub fn new(code: u16, message: String, data: Option<T>) -> (r: Self)
        ensures
            r.code == code,
            r.message == message,
            r.data == data,
    {
        Self { code, message, data }
    }

    /// A success envelope: code 200 with the given message and payload.
    pub fn ok(message: &str, data: Option<T>) -> (r: Self)
        ensures
            r.code == 200,
            r.message@ == message@,
            r.data == data,
    {
        Self { code: 200, message: String::from_str(message), data }
    }

    /// A failure envelope: the given code and message, no payload.
    pub fn err(code: u16, message: &str) -> (r: Self)
        ensures
            r.code == code,
            r.message@ == message@,
            r.data is None,
    {
        Self { code, message: String::from_str(message), data: None }
    }
}

/// The page requested by a caller, before validation.
#[derive(Debug, Clone, Copy, PartialEq, Eq, Structural)]
pub struct PaginationParams {
    pub page: u64,
    pub per_page: u64,
}

/// The first page when none is requested.
pub fn default_page() -> (r: u64)
    ensures
        r == 1,
{
    1
}

/// The page size when none is requested.
pub fn default_per_page() -> (r: u64)
    ensures
        r == 10,
{
    10
}

impl PaginationParams {
    /// Whether the request is acceptable: the page is at least one and the
    /// page size lies between one and one hundred.
    pub fn is_valid(&self) -> (r: bool)
        ensures
            r == (self.page >= 1 && 1 <= self.per_page <= 100),
    {
        self.page >= 1 && 1 <= self.per_page && self.per_page <= 100
    }
}

impl Default for PaginationParams {
    /// The first page with the default size.
    fn default() -> (r: Self)
        ensures
            r.page == 1,
            r.per_page == 10,
    {
        PaginationParams { page: default_page(), per_page: default_per_page() }
    }
}

/// One page of results.
#[derive(Debug)]
pub struct Page<T> {
    pub total: u64,
    pub page: u64,
    pub per_page: u64,
    pub items: Vec<T>,
}

impl<T> Page<T> {
    /// A page with every field as given.
    pub fn new(total: u64, page: u64, per_page: u64, items: Vec<T>) -> (r: Self)
        ensures
            r.total == total,
            r.page == page,
            r.per_page == per_page,
            r.items == items,
    {
        Self { total, page, per_page, items }
    }

    /// The empty first page of the given size.
    pub fn empty(per_page: u64) -> (r: Self)
        ensures
            r.total == 0,
            r.page == 1,
            r.per_page == per_page,
            r.items@.len() == 0,
    {
        Self { total: 0, page: 1, per_page, items: Vec::new() }
    }

    /// A page echoing the requested position and size.
    pub fn from_pagination(pagination: PaginationParams, total: u64, items: Vec<T>) -> (r: Self)
        ensures
            r.total == total,
            r.page == pagination.page,
            r.per_page == pagination.per_page,
            r.items == items,
    {
        Self { total, page: pagination.page, per_page: pagination.per_page, items }
    }
}

} // verus!

//! The shapes the REST API answers with, and what its handlers compute
//! between reading a request and writing the database.
use vstd::prelude::*;

pub mod accounting;
pub mod customers;
pub mod inventory;
pub mod menu;
pub mod order_items;
pub mod orders;
pub mod payments;
pub mod reservations;
pub mod staff;
pub mod tables;

verus! {

/// The envelope of every API answer.
#[derive(Debug)]
pub struct ApiResponse<T> {
    pub success: bool,
    pub data: Option<T>,
    pub error: Option<String>,
}

impl<T> ApiResponse<T> {
    /// A successful answer carrying `data`.
    pub fn success(data: T) -> (r: ApiResponse<T>)
        ensures
            r.success,
            r.data == Some(data),
            r.error is None,
    {
        ApiResponse { success: true, data: Some(data), error: None }
    }

    /// A failed answer carrying the message.
    pub fn error(message: String) -> (r: ApiResponse<T>)
        ensures
            !r.success,
            r.data is None,
            r.error == Some(message),
    {
        ApiResponse { success: false, data: None, error: Some(message) }
    }
}

/// The page and page size a listing asks for.
#[derive(Debug, Clone, Copy, PartialEq, Eq)]
pub struct PaginationParams {
    pub page: Option<u32>,
    pub limit: Option<u32>,
}

impl Default for PaginationParams {
    /// The first page of fifty.
    fn default() -> (p: PaginationParams)
        ensures
            p.page == Some(1u32),
            p.limit == Some(50u32),
    {
        PaginationParams { page: Some(1), limit: Some(50) }
    }
}

/// The number of pages of `limit` items that hold `total` items: the
/// ceiling of `total / limit`, kept within the range of `u32`; a positive
/// total over pages of no items takes the largest count, and no items take
/// no pages.
pub open spec fn page_count(total: i64, limit: u32) -> u32 {
    if total <= 0 {
        0
    } else if limit == 0 {
        u32::MAX
    } else {
        let q = (total + limit - 1) / (limit as int);
        if q > u32::MAX {
            u32::MAX
        } else {
            q as u32
        }
    }
}

/// One page of a listing.
#[derive(Debug)]
pub struct PaginatedResponse<T> {
    pub items: Vec<T>,
    pub total: i64,
    pub page: u32,
    pub limit: u32,
    pub total_pages: u32,
}

impl<T> PaginatedResponse<T> {
    /// A page of `items` out of `total`, with the number of pages.
    pub fn new(items: Vec<T>, total: i64, page: u32, limit: u32) -> (r: PaginatedResponse<T>)
        ensures
            r.items == items,
            r.total == total,
            r.page == page,
            r.limit == limit,
            r.total_pages == page_count(total, limit),
    {
        let total_pages: u32 = if total <= 0 {
            0
        } else if limit == 0 {
            u32::MAX
        } else {
            let t: u64 = total as u64;
            let l: u64 = limit as u64;
            let q: u64 = (t + l - 1) / l;
            if q > u32::MAX as u64 {
                u32::MAX
            } else {
                q as u32
            }
        };
        PaginatedResponse { items, total, page, limit, total_pages }
    }
}

/// The body of an error answer.
#[derive(Debug, Clone)]
pub struct ErrorResponse {
    pub error: String,
    pub details: Option<String>,
}

} // verus!

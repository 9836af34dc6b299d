//! Records and query parameters that several parts share.

use vstd::prelude::*;
use uuid::Uuid;
use crate::clock::Timestamp;
use crate::single::Single;

verus! {

/// Where a training record comes from.
#[derive(Debug, Clone, Copy, PartialEq, Eq, Structural)]
pub enum DataSource {
    UserFeedback,
    ExpertLabeling,
    SystemGenerated,
}

/// One record for fine-tuning a model.
#[derive(Debug, Clone)]
pub struct FinetuneData {
    pub id: Uuid,
    pub input_text: String,
    pub target_output: String,
    pub data_source: DataSource,
    pub quality_score: Single,
    pub created_at: Timestamp,
}

/// Which page of a listing, and how long a page is.
#[derive(Debug, Clone, Copy, PartialEq, Eq, Structural)]
pub struct Pagination {
    pub page: u32,
    pub page_size: u32,
}

/// One page of a listing, with the size of the whole.
#[derive(Debug, Clone)]
pub struct PagedResult<T> {
    pub data: Vec<T>,
    pub total: u64,
    pub page: u32,
    pub page_size: u32,
    pub total_pages: u32,
}

/// What a listing may be narrowed by.
#[derive(Debug, Clone)]
pub struct QueryFilter {
    pub category: Option<String>,
    pub status: Option<String>,
    pub priority_min: Option<i32>,
    pub priority_max: Option<i32>,
    pub date_from: Option<Timestamp>,
    pub date_to: Option<Timestamp>,
    pub keywords: Option<String>,
}

/// How many pages of `page_size` items it takes to hold `total` items, as
/// far as 32 bits can count. With pages of no items, nothing takes no page,
/// and anything takes more pages than can be counted.
pub open spec fn pages_needed(total: nat, page_size: nat) -> nat {
    if page_size == 0 {
        if total == 0 {
            0
        } else {
            u32::MAX as nat
        }
    } else {
        let pages = (total + page_size - 1) / page_size as int;
        if pages > u32::MAX {
            u32::MAX as nat
        } else {
            pages as nat
        }
    }
}

/// How many pages of `page_size` items it takes to hold `total` items.
pub fn count_pages(total: u64, page_size: u32) -> (pages: u32)
    ensures
        pages == pages_needed(total as nat, page_size as nat),
{
    if page_size == 0 {
        if total == 0 {
            0
        } else {
            u32::MAX
        }
    } else {
        let size: u64 = page_size as u64;
        let full: u64 = total / size;
        let rest: u64 = total % size;
        assert(rest != 0 ==> full < total) by (nonlinear_arith)
            requires
                size > 0,
                full == total / size,
                rest == total % size,
        ;
        let pages: u64 = if rest == 0 {
            full
        } else {
            full + 1
        };
        assert(pages == (total + size - 1) / size as int) by (nonlinear_arith)
            requires
                size > 0,
                full == total / size,
                rest == total % size,
                pages == if rest == 0 {
                    full as int
                } else {
                    full + 1
                },
        ;
        if pages > u32::MAX as u64 {
            u32::MAX
        } else {
            pages as u32
        }
    }
}

impl<T> PagedResult<T> {
    /// The page `data` of a listing of `total` items.
    pub fn new(data: Vec<T>, total: u64, page: u32, page_size: u32) -> (result: Self)
        ensures
            result.data == data,
            result.total == total,
            result.page == page,
            result.page_size == page_size,
            result.total_pages == pages_needed(total as nat, page_size as nat),
    {
        PagedResult { data, total, page, page_size, total_pages: count_pages(total, page_size) }
    }
}

impl Default for Pagination {
    /// The first page, with twenty items to the page.
    fn default() -> (pagination: Pagination)
        ensures
            pagination.page == 1,
            pagination.page_size == 20,
    {
        Pagination { page: 1, page_size: 20 }
    }
}

} // verus!

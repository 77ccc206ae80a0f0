use vstd::prelude::*;

use crate::error::NoteError;
use crate::note::STORABLE_MAX;

verus! {

/// Order of the primary sort key of a listing.
#[derive(Debug, Clone, Copy, PartialEq, Eq)]
pub enum SortDirection {
    Asc,
    Desc,
}

/// One page of a listing: `page` counts from zero, `size` is the number of
/// items per page.
///
/// Notes are always listed by trading date in `direction`, then by id from the
/// newest; `sort_by` names the sort field for callers that record it.
#[derive(Debug, Clone, PartialEq, Eq)]
pub struct PageRequest {
    pub page: u64,
    pub size: u64,
    pub sort_by: String,
    pub direction: SortDirection,
}

/// The items of one page, with the size of the whole listing.
#[derive(Debug, Clone, PartialEq, Eq)]
pub struct PageResponse<T> {
    pub content: Vec<T>,
    pub total_pages: u64,
    pub total_elements: u64,
}

/// Number of pages of `size` items that hold `total` items: `total / size` rounded up.
pub open spec fn page_count(total: int, size: int) -> int {
    if total % size == 0 {
        total / size
    } else {
        total / size + 1
    }
}

/// The first item of a page, counted from zero.
pub open spec fn page_offset(request: PageRequest) -> int {
    request.page * request.size
}

/// A page request the store can run: a positive size, and a size and offset
/// that fit in a stored integer.
pub open spec fn runnable(request: PageRequest) -> bool {
    request.size > 0 && request.size <= STORABLE_MAX && page_offset(request) <= STORABLE_MAX
}

/// Number of pages of `size` items that hold `total_elements` items.
pub fn total_pages(total_elements: u64, size: u64) -> (r: u64)
    requires
        size > 0,
    ensures
        r == page_count(total_elements as int, size as int),
{
    let whole = total_elements / size;
    if total_elements % size != 0 {
        proof {
            assert(whole < total_elements) by (nonlinear_arith)
                requires
                    whole == total_elements / size,
                    size > 0,
                    total_elements % size != 0,
            ;
        }
        whole + 1
    } else {
        whole
    }
}

/// The `LIMIT` and `OFFSET` of a page request.
pub fn page_window(request: &PageRequest) -> (r: Result<(i64, i64), NoteError>)
    ensures
        request.size == 0 ==> r == Err::<(i64, i64), NoteError>(NoteError::InvalidPageRequest),
        request.size > 0 && !runnable(*request) ==> r == Err::<(i64, i64), NoteError>(
            NoteError::AmountOutOfRange,
        ),
        runnable(*request) ==> r == Ok::<(i64, i64), NoteError>(
            (request.size as i64, page_offset(*request) as i64),
        ),
{
    if request.size == 0 {
        return Err(NoteError::InvalidPageRequest);
    }
    if request.size > STORABLE_MAX {
        return Err(NoteError::AmountOutOfRange);
    }
    proof {
        assert(request.page * request.size <= u128::MAX) by (nonlinear_arith);
    }
    let offset: u128 = request.page as u128 * request.size as u128;
    if offset > STORABLE_MAX as u128 {
        return Err(NoteError::AmountOutOfRange);
    }
    Ok((request.size as i64, offset as i64))
}

impl<T> PageResponse<T> {
    pub fn new(content: Vec<T>, total_pages: u64, total_elements: u64) -> (r: PageResponse<T>)
        ensures
            r.content == content,
            r.total_pages == total_pages,
            r.total_elements == total_elements,
    {
        PageResponse { content, total_pages, total_elements }
    }
}

} // verus!

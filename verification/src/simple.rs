//! The simple parameter pair types: a page-oriented request with no
//! extra payload, and the offset-oriented pair that conversion produces.
use vstd::prelude::*;

use crate::DefaultIntoOffset;
use crate::IntoOffset;
use crate::Offsetable;
use crate::Pageable;
use crate::DEFAULT_MAX_PAGE_SIZE;
use crate::DEFAULT_PAGE_SIZE;
use crate::effective_page_size;
use crate::normalized_page_number;
use crate::page_offset;

verus! {

/// A page-oriented query request: a page number and a page size, both
/// as supplied by the caller (0 is a sentinel for "unspecified").
#[derive(Clone, Debug)]
pub struct PageParams {
    page_number: u32,
    page_size: u32,
}

impl PageParams {
    /// Builds a request from a page number (1-indexed; 0 stands for
    /// page 1) and a page size (0 asks for the default).
    pub fn new(page_number: u32, page_size: u32) -> (p: PageParams)
        ensures
            p.spec_page_number() == page_number,
            p.spec_page_size() == page_size,
    {
        PageParams { page_number, page_size }
    }
}

impl Pageable for PageParams {
    closed spec fn spec_page_number(&self) -> u32 {
        self.page_number
    }

    closed spec fn spec_page_size(&self) -> u32 {
        self.page_size
    }

    fn page_number(&self) -> u32 {
        self.page_number
    }

    fn page_size(&self) -> u32 {
        self.page_size
    }
}

/// An offset-oriented query request: how many records to skip and how
/// many to return. Produced by converting a page-oriented request; the
/// fields therefore always agree with `page_offset` and
/// `effective_page_size` for some source request.
#[derive(Clone, Debug)]
pub struct OffsetParams {
    offset: u64,
    limit: u32,
}

impl OffsetParams {
    /// Converts any page-oriented request into its offset and limit
    /// under the given default and maximum page sizes.
    pub fn new<T: Pageable>(pageable: &T, default_page_size: u32, max_page_size: u32) -> (r:
        OffsetParams)
        ensures
            r.spec_limit() == effective_page_size(
                pageable.spec_page_size(),
                default_page_size,
                max_page_size,
            ),
            r.spec_offset() == page_offset(pageable.spec_page_number(), r.spec_limit()),
    {
        let page_number: u32 = if pageable.page_number() == 0 {
            1
        } else {
            pageable.page_number()
        };
        let page_size: u32 = build_page_size(pageable, default_page_size, max_page_size);
        assert((page_number - 1) * (page_size as int) <= 0xFFFF_FFFEu64 * 0xFFFF_FFFFu64)
            by (nonlinear_arith)
            requires
                1 <= page_number <= 0xFFFF_FFFFu64,
                page_size <= 0xFFFF_FFFFu64,
        ;
        let offset: u64 = ((page_number as u64) - 1) * (page_size as u64);
        OffsetParams { offset, limit: page_size }
    }

    /// Number of records to skip.
    pub fn offset(&self) -> (o: u64)
        ensures
            o == self.spec_offset(),
    {
        self.offset
    }

    /// Maximum number of records to return.
    pub fn limit(&self) -> (l: u32)
        ensures
            l == self.spec_limit(),
    {
        self.limit
    }
}

/// The limit for a query: the requested page size with the default
/// substituted for 0 and the maximum applied, exactly as
/// `effective_page_size` states.
pub fn build_page_size<T: Pageable>(pageable: &T, default_size: u32, max_size: u32) -> (r: u32)
    ensures
        r == effective_page_size(pageable.spec_page_size(), default_size, max_size),
{
    let page_size: u32 = pageable.page_size();
    if page_size == 0 {
        if default_size > 0 {
            default_size
        } else {
            DEFAULT_PAGE_SIZE
        }
    } else if max_size == 0 {
        if page_size < DEFAULT_MAX_PAGE_SIZE {
            page_size
        } else {
            DEFAULT_MAX_PAGE_SIZE
        }
    } else {
        if page_size < max_size {
            page_size
        } else {
            max_size
        }
    }
}

impl Offsetable for OffsetParams {
    closed spec fn spec_offset(&self) -> u64 {
        self.offset
    }

    closed spec fn spec_limit(&self) -> u32 {
        self.limit
    }

    fn offset(&self) -> u64 {
        self.offset
    }

    fn limit(&self) -> u32 {
        self.limit
    }
}

impl IntoOffset for PageParams {
    type Offset = OffsetParams;

    /// A plain pair carries nothing beyond its page number and size.
    open spec fn spec_payload_kept(&self, r: &OffsetParams) -> bool {
        true
    }

    /// The offset and limit for this request under the given
    /// configuration.
    fn into_offset(self, default_page_size: u32, max_page_size: u32) -> OffsetParams {
        OffsetParams::new(&self, default_page_size, max_page_size)
    }
}

impl DefaultIntoOffset for PageParams {
    type Offset = OffsetParams;

    /// A plain pair carries nothing beyond its page number and size.
    open spec fn spec_payload_kept(&self, r: &OffsetParams) -> bool {
        true
    }

    /// The offset and limit for this request under the library-wide
    /// configuration.
    fn into_offset(self) -> OffsetParams {
        OffsetParams::new(&self, DEFAULT_PAGE_SIZE, DEFAULT_MAX_PAGE_SIZE)
    }
}

} // verus!

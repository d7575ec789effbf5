//! The composite request types: page- and offset-oriented requests that
//! additionally carry an arbitrary caller payload, such as query filters
//! unrelated to pagination.
use vstd::prelude::*;

use crate::simple::OffsetParams;
use crate::DefaultIntoOffset;
use crate::IntoOffset;
use crate::Offsetable;
use crate::Pageable;
use crate::DEFAULT_MAX_PAGE_SIZE;
use crate::DEFAULT_PAGE_SIZE;

verus! {

/// A page-oriented query request that owns an optional payload of
/// caller-chosen type alongside its page number and page size. The
/// payload is moved, never copied, into the offset-oriented counterpart
/// on conversion.
#[derive(Clone, Debug)]
pub struct PageRequest<T> {
    page_number: u32,
    page_size: u32,
    request: Option<T>,
}

/// The offset-oriented counterpart of [`PageRequest`]: offset and limit
/// plus the payload carried across the conversion unchanged.
pub struct OffsetRequest<T> {
    offset: u64,
    limit: u32,
    request: Option<T>,
}

impl<T> PageRequest<T> {
    /// The payload, exactly as supplied at construction.
    pub closed spec fn spec_request(&self) -> Option<T> {
        self.request
    }

    /// Builds a request from a page number (1-indexed; 0 stands for
    /// page 1), a page size (0 asks for the default), and an optional
    /// payload of query parameters unrelated to pagination.
    pub fn new(page_number: u32, page_size: u32, request: Option<T>) -> (p: PageRequest<T>)
        ensures
            p.spec_page_number() == page_number,
            p.spec_page_size() == page_size,
            p.spec_request() == request,
    {
        PageRequest { page_number, page_size, request }
    }

    /// The payload: query parameters unrelated to pagination.
    pub fn request(&self) -> (r: Option<&T>)
        ensures
            self.spec_request() is Some <==> r is Some,
            r matches Some(v) ==> self.spec_request() == Some(*v),
    {
        self.request.as_ref()
    }

    /// The requested page number, 1-indexed; 0 stands for page 1.
    pub fn page_number(&self) -> (n: u32)
        ensures
            n == self.spec_page_number(),
    {
        self.page_number
    }

    /// The requested records per page; 0 asks for the default.
    pub fn page_size(&self) -> (s: u32)
        ensures
            s == self.spec_page_size(),
    {
        self.page_size
    }
}

impl<T> Pageable for PageRequest<T> {
    closed spec fn spec_page_number(&self) -> u32 {
        self.page_number
    }

    closed spec fn spec_page_size(&self) -> u32 {
        self.page_size
    }

    fn page_number(&self) -> u32 {
        self.page_number
    }

    fn page_size(&self) -> u32 {
        self.page_size
    }
}

impl<T> OffsetRequest<T> {
    /// The payload carried across the conversion.
    pub closed spec fn spec_request(&self) -> Option<T> {
        self.request
    }

    /// An offset-oriented request with the given offset and limit and
    /// no payload.
    pub fn new(offset: u64, limit: u32) -> (r: OffsetRequest<T>)
        ensures
            r.spec_offset() == offset,
            r.spec_limit() == limit,
            r.spec_request() is None,
    {
        OffsetRequest { offset, limit, request: None }
    }

    /// Number of records to skip.
    pub fn offset(&self) -> (o: u64)
        ensures
            o == self.spec_offset(),
    {
        self.offset
    }

    /// Maximum number of records to return.
    pub fn limit(&self) -> (l: u32)
        ensures
            l == self.spec_limit(),
    {
        self.limit
    }

    /// The payload: query parameters unrelated to pagination.
    pub fn request(&self) -> (r: Option<&T>)
        ensures
            self.spec_request() is Some <==> r is Some,
            r matches Some(v) ==> self.spec_request() == Some(*v),
    {
        self.request.as_ref()
    }
}

impl<T> Offsetable for OffsetRequest<T> {
    closed spec fn spec_offset(&self) -> u64 {
        self.offset
    }

    closed spec fn spec_limit(&self) -> u32 {
        self.limit
    }

    fn offset(&self) -> u64 {
        self.offset
    }

    fn limit(&self) -> u32 {
        self.limit
    }
}

impl<T> IntoOffset for PageRequest<T> {
    type Offset = OffsetRequest<T>;

    /// The payload of the offset-oriented request is the payload this
    /// request was built with.
    open spec fn spec_payload_kept(&self, r: &OffsetRequest<T>) -> bool {
        r.spec_request() == self.spec_request()
    }

    /// The offset and limit for this request under the given
    /// configuration; the payload is moved across unchanged.
    fn into_offset(self, default_page_size: u32, max_page_size: u32) -> (r: OffsetRequest<T>) {
        let param = OffsetParams::new(&self, default_page_size, max_page_size);
        OffsetRequest { offset: param.offset(), limit: param.limit(), request: self.request }
    }
}

impl<T> DefaultIntoOffset for PageRequest<T> {
    type Offset = OffsetRequest<T>;

    /// The payload of the offset-oriented request is the payload this
    /// request was built with.
    open spec fn spec_payload_kept(&self, r: &OffsetRequest<T>) -> bool {
        r.spec_request() == self.spec_request()
    }

    /// The offset and limit for this request under the library-wide
    /// configuration; the payload is moved across unchanged.
    fn into_offset(self) -> (r: OffsetRequest<T>) {
        let param = OffsetParams::new(&self, DEFAULT_PAGE_SIZE, DEFAULT_MAX_PAGE_SIZE);
        OffsetRequest { offset: param.offset(), limit: param.limit(), request: self.request }
    }
}

} // verus!

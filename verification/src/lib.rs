//! A small data model for paginated queries: page-oriented request
//! parameters (page number + page size), their offset-oriented
//! counterparts (offset + limit), the conversion between the two under
//! configurable defaults and maximums, and a container for one page of
//! query results together with a total record count.
//!
//! The conversion treats a page number of 0 as page 1, substitutes a
//! default for a page size of 0, and clamps the page size to a maximum;
//! the offset is then `(page_number - 1) * limit` in 64-bit arithmetic.
use vstd::prelude::*;

mod composite;
mod page;
mod simple;

pub use composite::OffsetRequest;
pub use composite::PageRequest;
pub use page::Page;
pub use simple::build_page_size;
pub use simple::OffsetParams;
pub use simple::PageParams;

verus! {

/// Records per page when neither the request nor the caller's
/// configuration names a page size. A deployment picks one value from
/// {5, 10, 15, 20, 50}; 20 is the stock choice.
pub const DEFAULT_PAGE_SIZE: u32 = 20;

/// Ceiling on the records per page when the caller imposes no maximum
/// of their own.
pub const DEFAULT_MAX_PAGE_SIZE: u32 = 100;

/// Page numbers are 1-indexed; 0 means "unspecified" and stands for the
/// first page.
pub open spec fn normalized_page_number(page_number: u32) -> u32 {
    if page_number == 0 {
        1
    } else {
        page_number
    }
}

/// The limit actually used for a query: a page size of 0 asks for the
/// configured default (or the library-wide one when that is 0 too), and
/// any other page size is clamped to the configured maximum (or to the
/// library-wide ceiling when that is 0).
pub open spec fn effective_page_size(
    page_size: u32,
    default_page_size: u32,
    max_page_size: u32,
) -> u32 {
    if page_size == 0 {
        if default_page_size > 0 {
            default_page_size
        } else {
            DEFAULT_PAGE_SIZE
        }
    } else if max_page_size == 0 {
        if page_size < DEFAULT_MAX_PAGE_SIZE {
            page_size
        } else {
            DEFAULT_MAX_PAGE_SIZE
        }
    } else {
        if page_size < max_page_size {
            page_size
        } else {
            max_page_size
        }
    }
}

/// Number of records that precede the requested page: the 0-indexed
/// position of its first record.
pub open spec fn page_offset(page_number: u32, limit: u32) -> int {
    (normalized_page_number(page_number) - 1) * limit
}

/// A page-oriented query request: exposes a page number and a page size.
pub trait Pageable {
    /// The requested page number, 1-indexed; 0 stands for page 1.
    spec fn spec_page_number(&self) -> u32;

    /// The requested records per page; 0 asks for the default.
    spec fn spec_page_size(&self) -> u32;

    /// The requested page number, 1-indexed; 0 stands for page 1.
    fn page_number(&self) -> (n: u32)
        ensures
            n == self.spec_page_number(),
    ;

    /// The requested records per page; 0 asks for the default.
    fn page_size(&self) -> (s: u32)
        ensures
            s == self.spec_page_size(),
    ;
}

/// An offset-oriented query request: exposes an offset and a limit.
pub trait Offsetable {
    /// Number of records to skip.
    spec fn spec_offset(&self) -> u64;

    /// Maximum number of records to return.
    spec fn spec_limit(&self) -> u32;

    /// Number of records to skip.
    fn offset(&self) -> (o: u64)
        ensures
            o == self.spec_offset(),
    ;

    /// Maximum number of records to return.
    fn limit(&self) -> (l: u32)
        ensures
            l == self.spec_limit(),
    ;
}

/// Conversion of a page-oriented request into its offset-oriented
/// counterpart under a caller-supplied default page size and maximum
/// page size. Consumes the request, so stale page-oriented parameters
/// cannot be reused after conversion.
pub trait IntoOffset: Pageable + Sized {
    /// The offset-oriented counterpart produced by the conversion.
    type Offset: Offsetable;

    /// Says that the conversion carried everything beyond the page
    /// number and page size — in particular any payload — across
    /// unchanged; each implementing type states what that means for it.
    spec fn spec_payload_kept(&self, r: &Self::Offset) -> bool;

    /// Computes the offset and limit for this request. The limit is the
    /// effective page size under the given configuration; the offset is
    /// `(page_number - 1) * limit` with the page number normalized to 1
    /// when it is 0. Anything the request carries beyond those two
    /// fields is moved across unchanged.
    fn into_offset(self, default_page_size: u32, max_page_size: u32) -> (r: Self::Offset)
        ensures
            self.spec_payload_kept(&r),
            r.spec_limit() == effective_page_size(
                self.spec_page_size(),
                default_page_size,
                max_page_size,
            ),
            r.spec_offset() == page_offset(
                self.spec_page_number(),
                effective_page_size(self.spec_page_size(), default_page_size, max_page_size),
            ),
    ;
}

/// Conversion of a page-oriented request into its offset-oriented
/// counterpart under the library-wide configuration: it must agree with
/// [`IntoOffset`] called with `DEFAULT_PAGE_SIZE` and
/// `DEFAULT_MAX_PAGE_SIZE`.
pub trait DefaultIntoOffset: Pageable + Sized {
    /// The offset-oriented counterpart produced by the conversion.
    type Offset: Offsetable;

    /// Says that the conversion carried everything beyond the page
    /// number and page size — in particular any payload — across
    /// unchanged; each implementing type states what that means for it.
    spec fn spec_payload_kept(&self, r: &Self::Offset) -> bool;

    /// Computes the offset and limit for this request under the
    /// library-wide default and maximum page sizes. Anything the
    /// request carries beyond those two fields is moved across
    /// unchanged.
    fn into_offset(self) -> (r: Self::Offset)
        ensures
            self.spec_payload_kept(&r),
            r.spec_limit() == effective_page_size(
                self.spec_page_size(),
                DEFAULT_PAGE_SIZE,
                DEFAULT_MAX_PAGE_SIZE,
            ),
            r.spec_offset() == page_offset(
                self.spec_page_number(),
                effective_page_size(self.spec_page_size(), DEFAULT_PAGE_SIZE, DEFAULT_MAX_PAGE_SIZE),
            ),
    ;
}

/// For a request that names both its page number and its page size, the
/// offset is `(page_number - 1) * limit`, and the limit is the
/// requested page size clamped to the effective maximum: the configured
/// one, or the library-wide ceiling when the configured one is 0.
pub proof fn lemma_explicit_pair(
    page_number: u32,
    page_size: u32,
    default_page_size: u32,
    max_page_size: u32,
)
    requires
        page_number >= 1,
        page_size >= 1,
    ensures
        page_offset(page_number, effective_page_size(page_size, default_page_size, max_page_size))
            == (page_number - 1) * effective_page_size(
            page_size,
            default_page_size,
            max_page_size,
        ),
        effective_page_size(page_size, default_page_size, max_page_size) == vstd::math::min(
            page_size as int,
            if max_page_size == 0 {
                DEFAULT_MAX_PAGE_SIZE as int
            } else {
                max_page_size as int
            },
        ),
{
}

/// A page number of 0 and a page number of 1 stand for the same page:
/// both yield the offset of the first page, which is 0.
pub proof fn lemma_zero_page_number_normalized(limit: u32)
    ensures
        normalized_page_number(0) == normalized_page_number(1),
        page_offset(0, limit) == page_offset(1, limit),
        page_offset(0, limit) == 0,
{
}

/// A page size of 0 asks for the default: the configured default when
/// it is positive, the library-wide default otherwise.
pub proof fn lemma_zero_page_size_defaulted(default_page_size: u32, max_page_size: u32)
    ensures
        default_page_size > 0 ==> effective_page_size(0, default_page_size, max_page_size)
            == default_page_size,
        default_page_size == 0 ==> effective_page_size(0, default_page_size, max_page_size)
            == DEFAULT_PAGE_SIZE,
{
}

/// A page size at or above the maximum is clamped to it: to the
/// configured maximum when that is positive, else to the library-wide
/// ceiling.
pub proof fn lemma_oversized_page_size_clamped(
    page_size: u32,
    default_page_size: u32,
    max_page_size: u32,
)
    requires
        page_size >= 1,
    ensures
        max_page_size > 0 && page_size >= max_page_size ==> effective_page_size(
            page_size,
            default_page_size,
            max_page_size,
        ) == max_page_size,
        max_page_size == 0 && page_size >= DEFAULT_MAX_PAGE_SIZE ==> effective_page_size(
            page_size,
            default_page_size,
            max_page_size,
        ) == DEFAULT_MAX_PAGE_SIZE,
{
}

} // verus!

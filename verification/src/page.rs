//! The result container: one page of records together with the total
//! record count of the full result set.
use vstd::prelude::*;

verus! {

/// One page of query results. `records` holds only the current page's
/// slice of the data; `total` is the caller-supplied count of matching
/// records across all pages, and is deliberately not validated against
/// the record count of this page.
#[derive(Clone, Debug)]
pub struct Page<T> {
    records: Vec<T>,
    total: u64,
}

impl<T> Page<T> {
    /// The records of the current page, as a sequence.
    pub closed spec fn spec_records(&self) -> Seq<T> {
        self.records@
    }

    /// The caller-supplied total record count of the full result set.
    pub closed spec fn spec_total(&self) -> u64 {
        self.total
    }

    /// The record count of a page fits in the `u32` that `size` returns.
    pub open spec fn wf(&self) -> bool {
        self.spec_records().len() <= u32::MAX
    }

    /// Wraps one page of records together with the total count of
    /// matching records across all pages. The two are independent:
    /// `total` may exceed, equal, or fall short of the record count.
    pub fn new(records: Vec<T>, total: u64) -> (p: Page<T>)
        requires
            records@.len() <= u32::MAX,
        ensures
            p.spec_records() == records@,
            p.spec_total() == total,
            p.wf(),
    {
        Page { records, total }
    }

    /// The total record count across all pages, exactly as supplied.
    pub fn total(&self) -> (t: u64)
        ensures
            t == self.spec_total(),
    {
        self.total
    }

    /// The number of records in this page.
    pub fn size(&self) -> (n: u32)
        requires
            self.wf(),
        ensures
            n == self.spec_records().len(),
    {
        self.records.len() as u32
    }

    /// A read-only view of this page's records.
    pub fn records(&self) -> (r: &Vec<T>)
        ensures
            r@ == self.spec_records(),
    {
        &self.records
    }

    /// The record at `index` within this page. Indexing at `size()` or
    /// beyond is a caller error, ruled out here by the precondition.
    pub fn index(&self, index: u32) -> (r: &T)
        requires
            index < self.spec_records().len(),
        ensures
            *r == self.spec_records()[index as int],
    {
        &self.records[index as usize]
    }

    /// Consumes the page and hands its records to the caller, in order.
    pub fn into_records(self) -> (v: Vec<T>)
        ensures
            v@ == self.spec_records(),
    {
        self.records
    }
}

} // verus!

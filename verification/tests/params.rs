use pagination::build_page_size;
use pagination::OffsetParams;
use pagination::Page;
use pagination::PageParams;

#[test]
pub fn test_build_page_size() {
    // default page size
    let page_param = PageParams::new(0, 0);
    let size = build_page_size(&page_param, 0, 0);
    assert_eq!(size, 20);

    // user page size
    let page_param = PageParams::new(0, 10);
    let size = build_page_size(&page_param, 0, 0);
    assert_eq!(size, 10);

    // default max page size
    let page_param = PageParams::new(0, 300);
    let size = build_page_size(&page_param, 0, 0);
    assert_eq!(size, 100);

    // user default page size
    let page_param = PageParams::new(0, 0);
    let size = build_page_size(&page_param, 6, 0);
    assert_eq!(size, 6);

    // user page size with user default page size
    let page_param = PageParams::new(0, 3);
    let size = build_page_size(&page_param, 6, 0);
    assert_eq!(size, 3);

    // user default page size
    let page_param = PageParams::new(0, 0);
    let size = build_page_size(&page_param, 6, 30);
    assert_eq!(size, 6);

    let page_param = PageParams::new(0, 11);
    let size = build_page_size(&page_param, 6, 30);
    assert_eq!(size, 11);

    let page_param = PageParams::new(0, 42);
    let size = build_page_size(&page_param, 6, 33);
    assert_eq!(size, 33);
}

#[test]
pub fn test_new_offset_param() {
    let page_param = PageParams::new(0, 0);
    let offset_param = OffsetParams::new(&page_param, 0, 0);
    assert_eq!(offset_param.offset(), 0);
    assert_eq!(offset_param.limit(), 20);

    let page_param = PageParams::new(3, 0);
    let offset_param = OffsetParams::new(&page_param, 0, 0);
    assert_eq!(offset_param.offset(), 40);
    assert_eq!(offset_param.limit(), 20);
}

#[test]
fn test_page() {
    let page = Page::new(vec![10, 20, 30, 40, 50, 60], 10);
    assert_eq!(page.size(), 6);
    assert_eq!(page.total(), 10);
    assert_eq!(*page.index(5), 60);
    assert_eq!(*page.index(2), 30);
}

#[test]
fn page_records_view() {
    let page = Page::new(vec![7_u8, 8, 9], 3);
    assert_eq!(page.records(), &vec![7_u8, 8, 9]);
    assert_eq!(page.records().len(), 3);
}

#[test]
fn page_into_records_keeps_order() {
    let page = Page::new(vec![String::from("a"), String::from("b")], 5);
    let records = page.into_records();
    assert_eq!(records, vec![String::from("a"), String::from("b")]);
}

#[test]
fn page_total_independent_of_records() {
    // `total` reflects the whole result set, not this page: it may
    // exceed, equal, or fall short of the record count.
    let larger = Page::new(vec![1, 2], 100);
    assert_eq!(larger.size(), 2);
    assert_eq!(larger.total(), 100);

    let equal = Page::new(vec![1, 2], 2);
    assert_eq!(equal.size(), 2);
    assert_eq!(equal.total(), 2);

    let smaller = Page::new(vec![1, 2, 3], 1);
    assert_eq!(smaller.size(), 3);
    assert_eq!(smaller.total(), 1);
}

#[test]
fn page_may_be_empty() {
    let page: Page<u32> = Page::new(Vec::new(), 42);
    assert_eq!(page.size(), 0);
    assert_eq!(page.total(), 42);
    assert!(page.records().is_empty());
}

use pagination::IntoOffset;
use pagination::OffsetRequest;
use pagination::PageParams;
use pagination::PageRequest;

#[test]
pub fn simple_test_into_offset() {
    let page_param = PageParams::new(5, 0);
    let offset_param = page_param.into_offset(7, 15);
    assert_eq!(offset_param.offset(), 28);
    assert_eq!(offset_param.limit(), 7);

    let page_param = PageParams::new(7, 20);
    let offset_param = page_param.into_offset(7, 15);
    assert_eq!(offset_param.offset(), 90);
    assert_eq!(offset_param.limit(), 15);
}

#[test]
pub fn composite_test_into_offset() {
    let page_request = PageRequest::new(5, 20, Some(10_isize));
    assert_eq!(page_request.page_size(), 20);
    assert_eq!(page_request.page_number(), 5);
    assert_eq!(page_request.request().unwrap(), &10_isize);

    let offset_req = page_request.into_offset(0, 40);
    assert_eq!(offset_req.offset(), 80_u64);
    assert_eq!(offset_req.limit(), 20);
    assert_eq!(offset_req.request().unwrap(), &10_isize);
}

#[test]
fn middle_page_with_explicit_size() {
    let offset_param = PageParams::new(5, 20).into_offset(0, 0);
    assert_eq!(offset_param.offset(), 80);
    assert_eq!(offset_param.limit(), 20);
}

#[test]
fn everything_unspecified_gives_first_default_page() {
    let offset_param = PageParams::new(0, 0).into_offset(0, 0);
    assert_eq!(offset_param.offset(), 0);
    assert_eq!(offset_param.limit(), 20);
}

#[test]
fn zero_size_takes_library_default() {
    let offset_param = PageParams::new(3, 0).into_offset(0, 0);
    assert_eq!(offset_param.offset(), 40);
    assert_eq!(offset_param.limit(), 20);
}

#[test]
fn oversized_request_clamped_to_library_ceiling() {
    let offset_param = PageParams::new(0, 300).into_offset(0, 0);
    assert_eq!(offset_param.offset(), 0);
    assert_eq!(offset_param.limit(), 100);
}

#[test]
fn size_at_the_maximum_stays_there() {
    let offset_param = PageParams::new(2, 15).into_offset(0, 15);
    assert_eq!(offset_param.offset(), 15);
    assert_eq!(offset_param.limit(), 15);
}

#[test]
fn payload_of_none_stays_none() {
    let page_request: PageRequest<String> = PageRequest::new(4, 10, None);
    let offset_req = page_request.into_offset(0, 0);
    assert_eq!(offset_req.offset(), 30);
    assert_eq!(offset_req.limit(), 10);
    assert!(offset_req.request().is_none());
}

#[test]
fn string_payload_carried_across() {
    let page_request = PageRequest::new(2, 25, Some(String::from("user-id: 7")));
    let offset_req = page_request.into_offset(0, 50);
    assert_eq!(offset_req.offset(), 25);
    assert_eq!(offset_req.limit(), 25);
    assert_eq!(offset_req.request().unwrap(), "user-id: 7");
}

#[test]
fn offset_request_built_directly_has_no_payload() {
    let offset_req: OffsetRequest<u64> = OffsetRequest::new(120, 40);
    assert_eq!(offset_req.offset(), 120);
    assert_eq!(offset_req.limit(), 40);
    assert!(offset_req.request().is_none());
}

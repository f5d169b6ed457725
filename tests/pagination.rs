use rhyon::page::{PageParams, PageResult};
use rhyon::pagination::{default_page, default_size, PageRequest, PageResponse, PaginationQuery};

#[test]
fn page_request_clamps() {
    let r = PageRequest::new(0, 0);
    assert_eq!((r.page(), r.size()), (1, 10));
    let r = PageRequest::new(3, 250);
    assert_eq!((r.page(), r.size()), (3, 100));
    let r = PageRequest::new(2, 100);
    assert_eq!((r.page(), r.size()), (2, 100));
    let r = PageRequest::new(5, 1);
    assert_eq!((r.page(), r.size()), (5, 1));
}

#[test]
fn page_request_offset_and_default() {
    assert_eq!(PageRequest::new(3, 20).offset(), 40);
    assert_eq!(PageRequest::new(1, 20).offset(), 0);
    let d = PageRequest::default();
    assert_eq!((d.page(), d.size(), d.offset()), (1, 10, 0));
}

#[test]
fn page_response_counts_pages() {
    let r = PageResponse::new(vec![1, 2, 3], 2, 10, 25);
    assert_eq!(r.pages, 3);
    assert_eq!((r.page, r.size, r.total), (2, 10, 25));
    assert_eq!(r.items, vec![1, 2, 3]);
    assert_eq!(PageResponse::<u8>::new(Vec::new(), 1, 10, 0).pages, 0);
    assert_eq!(PageResponse::<u8>::new(Vec::new(), 1, 10, 20).pages, 2);
    assert_eq!(PageResponse::<u8>::new(Vec::new(), 1, 10, 21).pages, 3);
    assert_eq!(PageResponse::<u8>::new(Vec::new(), 1, 1, u64::MAX).pages, u64::MAX);
    assert_eq!(PageResponse::<u8>::new(Vec::new(), 1, 100, u64::MAX).pages, u64::MAX / 100 + 1);
}

#[test]
fn empty_page_response() {
    let r = PageResponse::<String>::empty(4, 10);
    assert!(r.items.is_empty());
    assert_eq!((r.page, r.size, r.total, r.pages), (4, 10, 0, 0));
}

#[test]
fn page_response_map_keeps_figures() {
    let r = PageResponse::new(vec![1u32, 2, 3], 1, 3, 7);
    let m = r.map(|x| format!("#{}", x));
    assert_eq!(m.items, vec!["#1", "#2", "#3"]);
    assert_eq!((m.page, m.size, m.total, m.pages), (1, 3, 7, 3));
}

#[test]
fn pagination_query_conversions() {
    assert_eq!(default_page(), 1);
    assert_eq!(default_size(), 10);
    let r = PageRequest::from_query(PaginationQuery { page: 0, size: 500 });
    assert_eq!((r.page(), r.size()), (1, 100));
    let q = PaginationQuery::from_request(PageRequest::new(4, 25));
    assert_eq!((q.page, q.size), (4, 25));
}

#[test]
fn page_params_defaults() {
    let p = PageParams::new(None, None);
    assert_eq!((p.page(), p.page_size(), p.offset()), (1, 10, 0));
    let p = PageParams::new(Some(3), Some(15));
    assert_eq!((p.page(), p.page_size(), p.offset()), (3, 15, 30));
}

#[test]
fn page_result_takes_params() {
    let r = PageResult::new(PageParams::new(Some(2), None), 42, vec!['a']);
    assert_eq!((r.page, r.page_size, r.total), (2, 10, 42));
    assert_eq!(r.items, vec!['a']);
}

use serwus::pagination::count_total;
use serwus::pagination::list_response;
use serwus::pagination::Paginate;
use serwus::pagination::DEFAULT_PER_PAGE;

#[test]
fn first_page_starts_at_zero() {
    let page = "SELECT 1".paginate(1);
    assert_eq!(*page.query(), "SELECT 1");
    assert_eq!(page.page(), 1);
    assert_eq!(page.limit(), 10);
    assert_eq!(page.limit(), DEFAULT_PER_PAGE);
    assert_eq!(page.offset(), 0);
}

#[test]
fn offset_is_pages_before_times_rows() {
    assert_eq!(().paginate(3).offset(), 20);
    assert_eq!(().paginate(3).per_page(25).offset(), 50);
    assert_eq!(().paginate(3).per_page(25).limit(), 25);
    assert_eq!(().paginate(3).per_page(25).page(), 3);
    assert_eq!(().paginate(0).offset(), -10);
    assert_eq!(().paginate(-1).per_page(7).offset(), -14);
    assert_eq!(().paginate(5).per_page(0).offset(), 0);
    assert_eq!(().paginate(2).per_page(i64::MAX).offset(), i64::MAX);
}

#[test]
fn total_is_what_the_first_row_carries() {
    assert_eq!(count_total(&vec![("a", 21), ("b", 21)]), 21);
    assert_eq!(count_total(&vec![("a", 7), ("b", 9)]), 7);
    assert_eq!(count_total(&Vec::<(u8, i64)>::new()), 0);
}

#[test]
fn response_of_a_middle_page() {
    let response = list_response(vec![("a", 21), ("b", 21)], 2, 3);
    assert_eq!(response.total, 21);
    assert_eq!(response.total_pages, 3);
    assert_eq!(response.next_page, Some(3));
    assert_eq!(response.data, vec!["a", "b"]);
}

#[test]
fn response_of_the_last_page_and_beyond() {
    assert_eq!(list_response(vec![("a", 21)], 3, 3).next_page, None);
    assert_eq!(list_response(vec![("a", 21)], 4, 3).next_page, None);
    let empty = list_response(Vec::<(u8, i64)>::new(), 1, 0);
    assert_eq!(empty.total, 0);
    assert_eq!(empty.total_pages, 0);
    assert_eq!(empty.next_page, None);
    assert!(empty.data.is_empty());
    assert_eq!(list_response(vec![(0u8, 1)], i64::MAX - 1, i64::MAX).next_page, Some(i64::MAX));
}

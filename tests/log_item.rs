use qemu_api::args::{LogItem, LogItems};

#[test]
fn test_log_items_from_into_iter() {
    let items = LogItems::from(vec![LogItem::Page, LogItem::GuestErrors]);
    let inner = items.items;
    assert_eq!(2, inner.len());
    assert!(inner.contains(&LogItem::Page));
    assert!(inner.contains(&LogItem::GuestErrors));
}

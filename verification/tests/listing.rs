use benten_engine::bytes::digest_lt;
use benten_engine::cid::Cid;
use benten_engine::listing::{
    created_at_key, first_listing_view, listing_view_candidates, loaded_view_rows,
    order_backend_rows, resolve_listing, row_before, ListingRow, ViewListingEntry,
};
use benten_engine::property::PropertyValue;

fn cid(first: u8) -> Cid {
    let mut digest = [0u8; 32];
    digest[0] = first;
    Cid { digest }
}

fn entry(first: u8, loaded: bool) -> ViewListingEntry {
    ViewListingEntry { cid: cid(first), loaded }
}

fn row(created_at: i64, first: u8) -> ListingRow {
    ListingRow { created_at, cid: cid(first) }
}

#[test]
fn listing_probes_per_label_view_then_default() {
    let c = listing_view_candidates("post");
    assert_eq!(c, vec!["content_listing_post".to_string(), "content_listing".to_string()]);
}

#[test]
fn listing_first_view_with_rows_wins() {
    let answers = vec![None, Some(vec![entry(7, true), entry(9, false), entry(3, true)])];
    assert_eq!(first_listing_view(&answers), Some(1));
    let r = resolve_listing(&answers, vec![row(1, 1)]);
    assert_eq!(r, vec![cid(7), cid(3)]);
}

#[test]
fn listing_empty_view_falls_through_to_next() {
    let answers = vec![Some(vec![]), Some(vec![entry(5, true)])];
    assert_eq!(resolve_listing(&answers, vec![]), vec![cid(5)]);
}

#[test]
fn listing_falls_back_to_backend_order() {
    let answers = vec![None, Some(vec![])];
    assert_eq!(first_listing_view(&answers), None);
    let rows = vec![row(30, 1), row(10, 9), row(10, 2), row(20, 4)];
    assert_eq!(resolve_listing(&answers, rows), vec![cid(2), cid(9), cid(4), cid(1)]);
}

#[test]
fn listing_fallback_without_views() {
    let rows = vec![row(5, 1), row(-5, 2)];
    assert_eq!(resolve_listing(&vec![], rows), vec![cid(2), cid(1)]);
}

#[test]
fn listing_fallback_order_ignores_backend_order() {
    let a = order_backend_rows(vec![row(2, 3), row(1, 8), row(2, 1), row(1, 8)]);
    let b = order_backend_rows(vec![row(1, 8), row(2, 1), row(1, 8), row(2, 3)]);
    assert_eq!(a, b);
    assert_eq!(a, vec![row(1, 8), row(1, 8), row(2, 1), row(2, 3)]);
}

#[test]
fn listing_loaded_rows_keep_view_order() {
    let r = loaded_view_rows(&vec![entry(4, false), entry(2, true), entry(8, true)]);
    assert_eq!(r, vec![cid(2), cid(8)]);
}

#[test]
fn listing_created_at_key_reads_integers_only() {
    assert_eq!(created_at_key(Some(&PropertyValue::Int(42))), 42);
    assert_eq!(created_at_key(Some(&PropertyValue::Text("1".to_string()))), 0);
    assert_eq!(created_at_key(None), 0);
}

#[test]
fn listing_digest_and_row_order() {
    let mut a = [0u8; 32];
    let mut b = [0u8; 32];
    a[31] = 1;
    b[31] = 2;
    assert!(digest_lt(&a, &b));
    assert!(!digest_lt(&b, &a));
    assert!(!digest_lt(&a, &a));
    assert!(row_before(&row(1, 9), &row(2, 0)));
    assert!(row_before(&row(2, 0), &row(2, 9)));
    assert!(!row_before(&row(2, 9), &row(2, 9)));
}

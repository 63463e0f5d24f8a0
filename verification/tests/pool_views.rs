//! Snapshot view leases and index partitions.

use jueming::ids::{ProjectId, RevisionId};
use jueming::views::{
    check_index_schema, check_view_schema, default_view_schema, index_window, missing_field,
    pinned_handles, pool_binding, pool_limit, pool_route, unknown_pool_method, view_side,
    PoolRoute, SchemaRef, ViewLease,
};

fn schema(name: &str, version: u64) -> SchemaRef {
    SchemaRef { name: name.into(), version }
}

fn lease(owner: &str, closed: bool, handles: &[&str]) -> ViewLease {
    let mut view = ViewLease::open(
        format!("view-{owner}"),
        ProjectId::from_u128(1),
        RevisionId::new(4),
        owner.into(),
        default_view_schema(),
        "source".into(),
    );
    for h in handles {
        view.record_handle((*h).into());
    }
    if closed {
        view.close();
    }
    view
}

#[test]
fn pool_pages_default_to_a_hundred_and_stay_within_bounds() {
    assert_eq!(pool_limit(None), 100);
    assert_eq!(pool_limit(Some(0)), 1);
    assert_eq!(pool_limit(Some(37)), 37);
    assert_eq!(pool_limit(Some(5000)), 200);
}

#[test]
fn only_index_and_view_schemas_of_version_one_are_read() {
    assert!(check_index_schema(&schema("BasicIndexRef", 1)).is_ok());
    assert!(check_index_schema(&schema("LexicalIndexRef", 1)).is_ok());
    let e = check_index_schema(&schema("LexicalIndexRef", 2)).unwrap_err();
    assert_eq!(e.code, "pool_error");
    assert_eq!(e.message, "handle does not refer to a supported index");
    assert!(check_view_schema(&default_view_schema()).is_ok());
    assert!(check_view_schema(&schema("TextView", 1)).is_ok());
    assert_eq!(
        check_view_schema(&schema("BasicIndexRef", 1)).unwrap_err().message,
        "view requires SegmentView or TextView schema 1"
    );
}

#[test]
fn a_view_reads_the_source_side_unless_asked_otherwise() {
    assert_eq!(view_side(None).unwrap(), "source");
    assert_eq!(view_side(Some("target")).unwrap(), "target");
    assert_eq!(view_side(Some("middle")).unwrap_err().message, "unknown view side");
    assert_eq!(pool_binding(None).unwrap_err().message, "binding required");
    assert_eq!(pool_binding(Some("b")).unwrap(), "b");
}

#[test]
fn a_lease_serves_its_binding_until_closed() {
    let mut view = lease("b1", false, &[]);
    assert!(view.check_access(ProjectId::from_u128(1), "b1").is_ok());
    assert!(view.check_access(ProjectId::from_u128(2), "b1").is_err());
    let other = view.check_access(ProjectId::from_u128(1), "b2").unwrap_err();
    assert_eq!(other.message, "view is closed or belongs to another binding");
    view.close();
    assert!(view.closed);
    assert!(view.check_access(ProjectId::from_u128(1), "b1").is_err());
    assert_eq!(view.document_index(), 0);
}

#[test]
fn open_leases_of_live_bindings_pin_their_pages() {
    let views = vec![
        lease("b1", false, &["h1", "h2"]),
        lease("b2", false, &["h3"]),
        lease("b1", true, &["h4"]),
        lease("b3", false, &["h5"]),
    ];
    let live = vec!["b1".to_string(), "b3".to_string()];
    assert_eq!(pinned_handles(&views, &live), vec!["h1", "h2", "h5"]);
}

#[test]
fn index_pages_filter_by_term_and_report_the_next_cursor() {
    let terms: Vec<Option<String>> = vec![
        Some("a".into()),
        Some("b".into()),
        None,
        Some("a".into()),
        Some("a".into()),
    ];
    let (items, total, next) = index_window(&terms, Some("a"), 1, Some(1));
    assert_eq!(items, vec![3]);
    assert_eq!(total, 3);
    assert_eq!(next, Some(2));
    let (items, total, next) = index_window(&terms, None, 3, None);
    assert_eq!(items, vec![3, 4]);
    assert_eq!(total, 5);
    assert_eq!(next, None);
    let (items, _, next) = index_window(&terms, Some("a"), 7, Some(10));
    assert!(items.is_empty());
    assert_eq!(next, None);
}

#[test]
fn pool_methods_route_to_their_handlers() {
    assert_eq!(pool_route("pool.read_slice"), PoolRoute::ReadBatch);
    assert_eq!(pool_route("pool.collect_cache"), PoolRoute::CollectCache);
    assert!(!pool_route("pool.open_view").needs_view());
    assert!(pool_route("pool.close_view").needs_view());
    assert_eq!(pool_route("pool.other"), PoolRoute::Unknown);
    assert!(pool_route("pool.other").needs_view());
    assert_eq!(unknown_pool_method().message, "unknown pool method");
    assert_eq!(missing_field("segment_id").message, "segment_id required");
}

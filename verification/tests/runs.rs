//! Starting, replaying and ending research and graph runs.

use jueming::graph::{
    check_method_base, check_method_name, completed_nodes, find_order, graph_end_status,
    needs_input_publication, settle_nodes, view_document, view_segments, NodeState,
};
use jueming::ids::{DocumentId, RevisionId, SegmentId, SegmentOrderId};
use jueming::order::{OrderedSegmentRef, PositionKey, SegmentOrder};
use jueming::runs::{
    check_builtin_method, check_research_query, check_run_capacity, check_similarity_operator,
    observed_status, recorded_operators, replay, research_end_status, run_total, RunRequest,
    RunStatus,
};
use jueming::segment::{ContentRef, Segment, SegmentKind};

fn segment(id: u128, document: u128) -> Segment {
    Segment {
        segment_id: SegmentId::from_u128(id),
        document_id: DocumentId::from_u128(document),
        kind: SegmentKind::Sentence,
        content_ref: ContentRef { key: id.to_string() },
        content: String::new(),
        content_hash: String::new(),
        created_revision_id: RevisionId::new(1),
        updated_revision_id: RevisionId::new(1),
    }
}

fn request(id: &str, fingerprint: &str, owner: Option<&str>) -> RunRequest {
    RunRequest {
        request_id: id.into(),
        fingerprint: fingerprint.into(),
        owner_binding: owner.map(str::to_owned),
    }
}

#[test]
fn research_queries_are_bounded() {
    assert!(check_research_query("法律", 10).is_ok());
    let message = "invalid research query; max_gap must be 0–10";
    assert_eq!(check_research_query("  \t", 0).unwrap_err(), message);
    assert_eq!(check_research_query("法律", 11).unwrap_err(), message);
    assert!(check_research_query(&"a".repeat(2048), 0).is_ok());
    assert_eq!(check_research_query(&"a".repeat(2049), 0).unwrap_err(), message);
    // 683 three-byte characters are 2049 bytes.
    assert_eq!(check_research_query(&"法".repeat(683), 0).unwrap_err(), message);
}

#[test]
fn the_similarity_operator_must_fill_the_similarity_slot() {
    let slots = vec!["text.segment".to_string(), "text.similarity".to_string()];
    assert!(check_similarity_operator(Some(&slots)).is_ok());
    let other = vec!["text.segment".to_string()];
    assert_eq!(check_similarity_operator(Some(&other)).unwrap_err(), "unknown similarity provider");
    assert!(check_similarity_operator(None).is_err());
    assert_eq!(
        check_builtin_method(Some("m")).unwrap_err(),
        "custom method must be submitted through the v2 graph API"
    );
    assert!(check_builtin_method(None).is_ok());
}

#[test]
fn a_retried_start_answers_with_its_run_or_a_conflict() {
    let runs = vec![request("r1", "f1", Some("b1")), request("r2", "f2", None)];
    assert_eq!(replay(&runs, &request("r1", "f1", Some("b1"))), Ok(Some(0)));
    assert_eq!(replay(&runs, &request("r2", "f2", None)), Ok(Some(1)));
    assert_eq!(replay(&runs, &request("r3", "f1", Some("b1"))), Ok(None));
    assert_eq!(replay(&runs, &request("r1", "f9", Some("b1"))).unwrap_err(), "request ID conflict");
    assert_eq!(replay(&runs, &request("r1", "f1", Some("b2"))).unwrap_err(), "request ID conflict");
    let mut stored = runs.clone();
    stored.push(request("r3", "f3", Some("b3")));
    assert_eq!(replay(&stored, &request("r3", "f3", Some("b3"))), Ok(Some(2)));
    assert!(replay(&stored, &request("r3", "f4", Some("b3"))).is_err());
}

#[test]
fn two_runs_of_a_kind_may_be_active() {
    assert!(check_run_capacity(1, false).is_ok());
    assert_eq!(check_run_capacity(2, false).unwrap_err(), "two research runs are already active");
    assert_eq!(check_run_capacity(2, true).unwrap_err(), "graph queue full");
}

#[test]
fn a_research_run_covers_the_source_document_and_records_its_operators() {
    let segments = vec![segment(1, 10), segment(2, 20), segment(3, 10)];
    assert_eq!(run_total(&segments, DocumentId::from_u128(10)), 2);
    let operators = vec![
        "host.input.segments".to_string(),
        "builtin.exact".to_string(),
        "plugin.similarity".to_string(),
    ];
    assert_eq!(recorded_operators(&operators), vec![1, 2]);
}

#[test]
fn runs_end_by_cancellation_then_outcome() {
    assert_eq!(research_end_status(true, true), RunStatus::Cancelled);
    assert_eq!(research_end_status(false, true), RunStatus::Completed);
    assert_eq!(research_end_status(false, false), RunStatus::Failed);
    assert_eq!(graph_end_status(true, true), RunStatus::Completed);
    assert_eq!(graph_end_status(false, true), RunStatus::Cancelled);
    assert_eq!(graph_end_status(false, false), RunStatus::Failed);
    assert_eq!(
        observed_status(RunStatus::Running, false, true),
        (RunStatus::Interrupted, Some("Application exited before graph completed"))
    );
    assert_eq!(
        observed_status(RunStatus::Queued, false, false),
        (RunStatus::Interrupted, Some("应用退出时运行未完成；可重新检索，已确认记录保留"))
    );
    assert_eq!(observed_status(RunStatus::Running, true, true), (RunStatus::Running, None));
    assert_eq!(observed_status(RunStatus::Completed, false, false), (RunStatus::Completed, None));
}

#[test]
fn graph_methods_are_saved_against_their_head() {
    assert_eq!(check_method_name(Some("术语检索")), Ok("术语检索"));
    assert_eq!(check_method_name(Some("   ")).unwrap_err(), "method name required");
    assert!(check_method_name(Some(&"x".repeat(257))).is_err());
    assert!(check_method_name(None).is_err());
    assert!(check_method_base(Some("rev1"), Some(Some("rev1"))).is_ok());
    assert_eq!(
        check_method_base(Some("rev1"), Some(Some("rev0"))).unwrap_err(),
        "method revision changed; reload before saving"
    );
    assert!(check_method_base(Some("rev1"), None).is_err());
    assert!(check_method_base(None, None).is_ok());
    assert_eq!(check_method_base(None, Some(None)).unwrap_err(), "method does not exist");
}

#[test]
fn graph_nodes_report_progress_and_settle_on_failure() {
    assert!(needs_input_publication("host.input.source", false));
    assert!(!needs_input_publication("host.input.source", true));
    assert!(!needs_input_publication("builtin.exact", false));
    let mut nodes = vec![NodeState::Completed, NodeState::Running, NodeState::Queued];
    assert_eq!(completed_nodes(&nodes), 1);
    settle_nodes(&mut nodes, true);
    assert_eq!(nodes, vec![NodeState::Completed, NodeState::Cancelled, NodeState::Queued]);
    assert_eq!(completed_nodes(&nodes), 1);
    let mut failing = vec![NodeState::Running];
    settle_nodes(&mut failing, false);
    assert_eq!(failing, vec![NodeState::Failed]);
}

#[test]
fn a_view_page_follows_the_document_order() {
    assert_eq!(view_document("SegmentView", "target"), Ok(1));
    assert_eq!(view_document("TextView", "source"), Ok(0));
    assert_eq!(view_document("TextView", "side").unwrap_err(), "unknown view");
    assert!(view_document("Other", "source").unwrap_err().starts_with("source/target views require"));
    let entry = |id: u128, key: &str| OrderedSegmentRef {
        segment_id: SegmentId::from_u128(id),
        position_key: PositionKey(key.into()),
    };
    let order = SegmentOrder {
        segment_order_id: SegmentOrderId::from_u128(1),
        document_id: DocumentId::from_u128(10),
        entries: vec![entry(3, "a"), entry(8, "b"), entry(1, "c"), entry(2, "d")],
        updated_revision_id: RevisionId::new(1),
    };
    let segments = vec![segment(1, 10), segment(2, 10), segment(3, 10)];
    assert_eq!(view_segments(&order, &segments, 0, 3), vec![2, 0]);
    assert_eq!(view_segments(&order, &segments, 1, 10), vec![0, 1]);
    let orders = vec![order.clone()];
    assert_eq!(find_order(&orders, DocumentId::from_u128(10)), Ok(0));
    assert_eq!(find_order(&orders, DocumentId::from_u128(11)).unwrap_err(), "missing segment order");
}

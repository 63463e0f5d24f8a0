//! The research boundary of the host: forwarded calls, run ownership and
//! the checks a human judgement passes.

use jueming::alignment::{Alignment, AlignmentProducer, Cardinality};
use jueming::host::CommandReceipt;
use jueming::ids::{AlignmentId, CommandId, DocumentId, ProjectId, RevisionId, SegmentId};
use jueming::occurrences::{
    batch_count, coverage_label, locates_candidates, occurrence_targets, research_contexts,
    search_step,
};
use jueming::research_host::{
    call_target, canonical_base, check_alignment_current, check_native_research, check_run_owner,
    check_target_ranges, current_targets, is_pool_method, judgement, package_restart,
    research_route, unknown_research_method, FeatureRestart, ResearchRange, ResearchRoute,
};
use jueming::segment::{ContentRef, Segment, SegmentKind};

fn segment(id: u128, document: u128) -> Segment {
    Segment {
        segment_id: SegmentId::from_u128(id),
        document_id: DocumentId::from_u128(document),
        kind: SegmentKind::Sentence,
        content_ref: ContentRef { key: id.to_string() },
        content: String::new(),
        content_hash: String::new(),
        created_revision_id: RevisionId::new(1),
        updated_revision_id: RevisionId::new(1),
    }
}

fn alignment(sources: &[u128], targets: &[u128]) -> Alignment {
    Alignment {
        alignment_id: AlignmentId::from_u128(sources[0] * 1000 + targets.first().copied().unwrap_or(0)),
        project_id: ProjectId::from_u128(1),
        source_segment_ids: sources.iter().map(|s| SegmentId::from_u128(*s)).collect(),
        target_segment_ids: targets.iter().map(|t| SegmentId::from_u128(*t)).collect(),
        producer: AlignmentProducer::Manual,
        cardinality: Cardinality::OneToOne,
        created_revision_id: RevisionId::new(1),
        updated_revision_id: RevisionId::new(1),
    }
}

fn ids(values: &[u128]) -> Vec<SegmentId> {
    values.iter().map(|v| SegmentId::from_u128(*v)).collect()
}

#[test]
fn forwarded_research_calls_name_an_external_method() {
    assert_eq!(call_target(None).unwrap_err().message, "method required");
    let refused = call_target(Some("plugins.remove_local")).unwrap_err();
    assert_eq!(refused.code, "invalid_request");
    assert_eq!(refused.message, "method is not available to Agent or MCP");
    assert_eq!(
        call_target(Some("no.such.method")).unwrap_err().message,
        "method is not available to Agent or MCP"
    );
    let target = call_target(Some("pool.open_view")).unwrap();
    assert_eq!(target.method, "pool.open_view");
    assert!(target.requires_binding);
    assert!(is_pool_method("pool.open_view"));
    assert!(!is_pool_method("pipeline.start"));
}

#[test]
fn native_only_research_methods_need_the_desktop() {
    let refused = check_native_research("plugins.remove_local", false).unwrap_err();
    assert_eq!(refused.code, "native_ui_required");
    assert_eq!(refused.message, "功能开关、方法保存和人工研究确认由桌面用户操作");
    assert!(check_native_research("plugins.remove_local", true).is_ok());
    assert!(check_native_research("slots.migrations", false).is_ok());
}

#[test]
fn only_the_initiator_or_the_desktop_cancels_a_run() {
    assert!(check_run_owner("pipeline.cancel_run", false, Some("b1"), Some("b1")).is_ok());
    assert!(check_run_owner("pipeline.cancel_run", false, None, None).is_ok());
    assert!(check_run_owner("pipeline.cancel_graph_run", true, Some("b1"), Some("b2")).is_ok());
    assert!(check_run_owner("pipeline.get_run", false, Some("b1"), Some("b2")).is_ok());
    let refused = check_run_owner("pipeline.cancel_graph_run", false, Some("b1"), Some("b2")).unwrap_err();
    assert_eq!(refused.code, "run_owner_mismatch");
    assert_eq!(refused.message, "Only the initiating binding or native UI can cancel this run");
    assert!(check_run_owner("pipeline.cancel_run", false, Some("b1"), None).is_err());
}

#[test]
fn research_routes_tell_project_work_from_device_work() {
    assert_eq!(research_route("features.retry_prepare"), Some(ResearchRoute::EnableFeature));
    assert_eq!(research_route("features.cancel_prepare"), Some(ResearchRoute::DisableFeature));
    assert!(!research_route("schemas.get").unwrap().needs_project());
    assert!(research_route("research.confirm").unwrap().needs_project());
    assert!(research_route("pipeline.read_artifact").unwrap().needs_project());
    assert_eq!(research_route("research.unknown"), None);
    let e = unknown_research_method("research.unknown");
    assert_eq!(e.code, "unknown_method");
    assert_eq!(e.message, "Unsupported research method: research.unknown");
}

#[test]
fn package_changes_restart_the_feature_as_wanted() {
    assert_eq!(
        package_restart(false, true),
        FeatureRestart { cancel_runs: true, disable: true, enable: true }
    );
    assert_eq!(
        package_restart(false, false),
        FeatureRestart { cancel_runs: false, disable: false, enable: false }
    );
    assert_eq!(
        package_restart(true, false),
        FeatureRestart { cancel_runs: true, disable: true, enable: false }
    );
}

#[test]
fn a_research_command_is_based_on_the_revision_before_its_commit() {
    let receipts = vec![
        CommandReceipt {
            command_id: CommandId::from_u128(5),
            fingerprint: "f".into(),
            committed_revision_id: RevisionId::new(9),
        },
        CommandReceipt {
            command_id: CommandId::from_u128(6),
            fingerprint: "g".into(),
            committed_revision_id: RevisionId::new(0),
        },
    ];
    let current = RevisionId::new(12);
    assert_eq!(canonical_base(&receipts, CommandId::from_u128(5), current), RevisionId::new(8));
    assert_eq!(canonical_base(&receipts, CommandId::from_u128(6), current), RevisionId::new(0));
    assert_eq!(canonical_base(&receipts, CommandId::from_u128(7), current), current);
}

#[test]
fn judged_ranges_stay_inside_the_aligned_targets() {
    let range = |s: u128| ResearchRange { segment_id: SegmentId::from_u128(s), start_utf8: 0, end_utf8: 3 };
    assert!(check_target_ranges(&vec![range(2), range(3)], &ids(&[2, 3])).is_ok());
    let refused = check_target_ranges(&vec![range(2), range(4)], &ids(&[2, 3])).unwrap_err();
    assert_eq!(refused.code, "invalid_request");
    assert_eq!(refused.message, "target range is outside this occurrence's aligned context");
}

#[test]
fn an_omission_is_grouped_as_untranslated_and_marks_no_text() {
    let range = ResearchRange { segment_id: SegmentId::from_u128(2), start_utf8: 1, end_utf8: 4 };
    let omitted = judgement(true, Some("术语"), Some("note"), vec![range]);
    assert_eq!(omitted.group_name, "省译");
    assert!(omitted.target_ranges.is_empty());
    assert_eq!(omitted.strategy, "note");
    let kept = judgement(false, Some("术语"), None, vec![range]);
    assert_eq!(kept.group_name, "术语");
    assert_eq!(kept.strategy, "");
    assert_eq!(kept.target_ranges, vec![range]);
    assert_eq!(judgement(false, None, None, vec![]).group_name, "");
}

#[test]
fn a_confirmation_checks_that_the_alignment_is_unchanged() {
    // Source segment 1; target document 20 holds segments 2, 3; document 30 holds 9.
    let segments = vec![segment(1, 10), segment(2, 20), segment(3, 20), segment(9, 30)];
    let alignments = vec![alignment(&[1], &[2, 3]), alignment(&[1], &[9]), alignment(&[5], &[2])];
    let primary = DocumentId::from_u128(20);
    let source = SegmentId::from_u128(1);
    assert_eq!(current_targets(&alignments, &segments, primary, source), ids(&[2, 3]));
    let command = CommandId::from_u128(77);
    assert!(check_alignment_current(&vec![], command, &ids(&[3, 2]), &alignments, &segments, primary, source).is_ok());
    let stale = check_alignment_current(&vec![], command, &ids(&[2]), &alignments, &segments, primary, source).unwrap_err();
    assert_eq!(stale.code, "stale_alignment");
    assert_eq!(stale.message, "段落对齐已变化，请重新检索后确认");
    assert!(check_alignment_current(&vec![], command, &ids(&[2, 3, 4]), &alignments, &segments, primary, source).is_err());
    let committed = vec![CommandReceipt {
        command_id: command,
        fingerprint: String::new(),
        committed_revision_id: RevisionId::new(3),
    }];
    assert!(check_alignment_current(&committed, command, &ids(&[2]), &alignments, &segments, primary, source).is_ok());
}

#[test]
fn contexts_come_from_the_primary_translation_of_matched_segments() {
    // Sources 1, 4 in document 10; targets 2, 3 in the primary document 20; 9 in document 30.
    let segments = vec![segment(1, 10), segment(2, 20), segment(3, 20), segment(4, 10), segment(9, 30)];
    let alignments = vec![
        alignment(&[1], &[2, 3]),
        alignment(&[1], &[9]),
        alignment(&[4], &[3]),
        alignment(&[1, 4], &[2, 7]),
        alignment(&[5], &[]),
    ];
    let primary = DocumentId::from_u128(20);
    let contexts = research_contexts(&alignments, &segments, primary, &ids(&[1]));
    assert_eq!(contexts, vec![0, 3]);
    // Segment 7 does not exist and is left out of the targets.
    assert_eq!(occurrence_targets(&contexts, &alignments, &segments, SegmentId::from_u128(1)), vec![1, 2, 1]);
    let all = research_contexts(&alignments, &segments, primary, &ids(&[1, 4]));
    assert_eq!(all, vec![0, 2, 3]);
    assert_eq!(occurrence_targets(&all, &alignments, &segments, SegmentId::from_u128(4)), vec![2, 1]);
    assert_eq!(coverage_label(false, Some("full"), true), "not_requested");
    assert_eq!(coverage_label(true, Some("partial"), false), "partial");
    assert_eq!(coverage_label(true, None, false), "context_missing");
    assert_eq!(coverage_label(true, None, true), "unknown");
    assert!(locates_candidates(true, 2));
    assert!(!locates_candidates(true, 0));
    assert!(!locates_candidates(false, 2));
    assert_eq!(search_step(true), ("analysis.fuzzy_search", "builtin.fuzzy_search"));
    assert_eq!(search_step(false), ("analysis.basic_search", "builtin.search"));
    assert_eq!(batch_count(0), 0);
    assert_eq!(batch_count(16), 1);
    assert_eq!(batch_count(17), 2);
}

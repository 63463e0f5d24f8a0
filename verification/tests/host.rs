//! Session bindings, the retry cache and the checks in front of dispatch.

use jueming::host::{
    bind_session, cache_key, cache_reply, command_fingerprint, command_gate, CommandGate, CommandReceipt, check_ack, check_cancel, check_operation_access, locate_alignment, locate_segment, OperationOwner, check_backpressure, check_context,
    check_navigation, check_retry, check_reveal, dispatch_gate, ensure_binding, route, Binding,
    CachedReply, HostRoute, PendingUiAction, ProjectContents, MAX_BINDINGS, MAX_RETRY_CACHE,
};
use jueming::ids::{uuid_text, AlignmentId, CommandId, ProjectId, RevisionId, SegmentId};
use jueming::host::apply_mutation;
use jueming::host::{dispatch_step, DispatchStep};
use jueming::proposal::{
    abort_apply, approval_step, begin_apply, find_proposal, finish_apply, pipeline_approval_step,
    pipeline_reconcile, reconcile_applying, reject, require_native, ApprovalStep, CommitLookup,
    ProposalRecord, ProposalStatus,
};
use jueming::registry::BoundedMap;
use jueming::ContextSnapshot;

fn current(project: u128, revision: u64) -> Binding {
    Binding {
        project_id: ProjectId::from_u128(project),
        revision_id: RevisionId::new(revision),
    }
}

#[test]
fn uuid_text_is_hyphenated_lower_case_hex() {
    assert_eq!(
        uuid_text(0x0123_4567_89ab_cdef_0011_2233_4455_6677),
        "01234567-89ab-cdef-0011-223344556677"
    );
    let value = 0xa1a2a3a4_b1b2_c1c2_d1d2_d3d4d5d6d7d8u128;
    assert_eq!(
        uuid::Uuid::parse_str(&uuid_text(value)).unwrap().as_u128(),
        value
    );
}

#[test]
fn a_bound_session_passes_until_the_revision_moves() {
    let mut bindings = BoundedMap::new(MAX_BINDINGS);
    let now = current(7, 3);
    let (id, bound) = bind_session(&mut bindings, Some(now), None, None).unwrap();
    assert_eq!(bound, now);
    assert_eq!(id.len(), 36);
    assert_eq!(ensure_binding(&bindings, Some(&id), Some(now)).unwrap(), now);
    let later = current(7, 4);
    assert_eq!(
        ensure_binding(&bindings, Some(&id), Some(later)).unwrap_err().code,
        "stale_revision"
    );
    bindings.set_revisions(RevisionId::new(4));
    assert_eq!(ensure_binding(&bindings, Some(&id), Some(later)).unwrap(), later);
}

#[test]
fn binding_check_errors_name_their_cause() {
    let mut bindings = BoundedMap::new(MAX_BINDINGS);
    let now = current(1, 1);
    let (id, _) = bind_session(&mut bindings, Some(now), None, None).unwrap();
    assert_eq!(ensure_binding(&bindings, None, Some(now)).unwrap_err().code, "binding_required");
    assert_eq!(
        ensure_binding(&bindings, Some("nope"), Some(now)).unwrap_err().code,
        "stale_binding"
    );
    assert_eq!(ensure_binding(&bindings, Some(&id), None).unwrap_err().code, "project_unavailable");
    assert_eq!(
        ensure_binding(&bindings, Some(&id), Some(current(2, 1))).unwrap_err().code,
        "stale_revision"
    );
    bindings.clear();
    assert_eq!(
        ensure_binding(&bindings, Some(&id), Some(now)).unwrap_err().code,
        "stale_binding"
    );
}

#[test]
fn binding_refuses_a_stale_expectation_and_a_closed_project() {
    let mut bindings = BoundedMap::new(MAX_BINDINGS);
    let now = current(5, 9);
    assert_eq!(
        bind_session(&mut bindings, None, None, None).unwrap_err().code,
        "project_unavailable"
    );
    assert_eq!(
        bind_session(&mut bindings, Some(now), None, Some(RevisionId::new(8)))
            .unwrap_err()
            .code,
        "stale_revision"
    );
    assert_eq!(
        bind_session(&mut bindings, Some(now), Some(ProjectId::from_u128(6)), None)
            .unwrap_err()
            .code,
        "stale_revision"
    );
    assert_eq!(bindings.len(), 0);
    assert!(bind_session(&mut bindings, Some(now), Some(ProjectId::from_u128(5)), Some(RevisionId::new(9))).is_ok());
    assert_eq!(bindings.len(), 1);
}

#[test]
fn the_oldest_bindings_are_forgotten_beyond_capacity() {
    let mut bindings = BoundedMap::new(MAX_BINDINGS);
    let now = current(1, 1);
    let mut ids = Vec::new();
    for _ in 0..MAX_BINDINGS + 1 {
        ids.push(bind_session(&mut bindings, Some(now), None, None).unwrap().0);
    }
    assert_eq!(bindings.len(), MAX_BINDINGS);
    assert_eq!(
        ensure_binding(&bindings, Some(&ids[0]), Some(now)).unwrap_err().code,
        "stale_binding"
    );
    assert!(ensure_binding(&bindings, Some(&ids[1]), Some(now)).is_ok());
    assert!(ensure_binding(&bindings, Some(&ids[MAX_BINDINGS]), Some(now)).is_ok());
}

#[test]
fn a_retried_request_replays_its_first_reply() {
    let mut cache: BoundedMap<CachedReply<String>> = BoundedMap::new(MAX_RETRY_CACHE);
    let key = cache_key(false, "req-1");
    assert_eq!(key, "external:req-1");
    assert_eq!(cache_key(true, "req-1"), "native:req-1");
    assert_eq!(check_retry(&cache, &key, "fp").unwrap(), None);
    cache_reply(&mut cache, key.clone(), "fp".into(), "first reply".into());
    assert_eq!(check_retry(&cache, &key, "fp").unwrap().unwrap(), "first reply");
    assert_eq!(
        check_retry(&cache, &key, "other").unwrap_err().code,
        "request_id_conflict"
    );
    assert_eq!(check_retry(&cache, "native:req-1", "fp").unwrap(), None);
}

#[test]
fn the_retry_cache_keeps_the_newest_replies() {
    let mut cache: BoundedMap<CachedReply<u32>> = BoundedMap::new(MAX_RETRY_CACHE);
    for i in 0..(MAX_RETRY_CACHE as u32 + 2) {
        cache_reply(&mut cache, format!("native:{i}"), "fp".into(), i);
    }
    assert_eq!(cache.len(), MAX_RETRY_CACHE);
    assert_eq!(check_retry(&cache, "native:0", "fp").unwrap(), None);
    assert_eq!(check_retry(&cache, "native:1", "fp").unwrap(), None);
    assert_eq!(*check_retry(&cache, "native:2", "fp").unwrap().unwrap(), 2);
    assert_eq!(*check_retry(&cache, "native:257", "fp").unwrap().unwrap(), 257);
}

#[test]
fn keeps_navigation_and_reveal_external_but_gates_native_synchronisation() {
    assert!(dispatch_gate("ui.navigate", false).is_ok());
    assert!(dispatch_gate("ui.reveal", false).is_ok());
    for method in ["ui.publish_context", "ui.ack", "app.get_projection", "research.confirm", "features.enable"] {
        let error = dispatch_gate(method, false).unwrap_err();
        assert_eq!(error.code, "native_ui_required", "{method}");
        assert!(dispatch_gate(method, true).is_ok());
    }
    assert_eq!(
        dispatch_gate("ui.ack", false).unwrap_err().message,
        "This UI synchronization method is only available to the trusted native client."
    );
}

#[test]
fn methods_route_to_their_handlers() {
    assert_eq!(route("pool.read_batch", false).unwrap(), HostRoute::Pool);
    assert_eq!(route("research.call", false).unwrap(), HostRoute::Research);
    assert_eq!(route("research.start", false).unwrap(), HostRoute::Research);
    assert_eq!(route("ui.get_selection", false).unwrap(), HostRoute::GetContext);
    assert_eq!(route("ui.reveal", false).unwrap(), HostRoute::Reveal);
    assert_eq!(route("proposal.approve", true).unwrap(), HostRoute::ProposalApprove);
    assert_eq!(
        route("proposal.approve", false).unwrap_err().code,
        "native_approval_required"
    );
    assert_eq!(route("pipeline.execute", false).unwrap(), HostRoute::Pipeline);
    let unknown = route("nothing.here", true).unwrap_err();
    assert_eq!(unknown.code, "unknown_method");
    assert_eq!(unknown.message, "Unsupported application method: nothing.here");
}

#[test]
fn navigation_before_a_project_opens_is_limited() {
    assert!(check_navigation(Some("settings"), false).is_ok());
    assert!(check_navigation(Some("project"), false).is_ok());
    assert_eq!(check_navigation(Some("review"), false).unwrap_err().code, "project_unavailable");
    assert!(check_navigation(Some("review"), true).is_ok());
    assert_eq!(check_navigation(Some("garden"), true).unwrap_err().code, "invalid_request");
    let missing = check_navigation(None, true).unwrap_err();
    assert_eq!(missing.code, "invalid_request");
    assert_eq!(missing.message, "ui.navigate requires tab");
}

#[test]
fn reveal_names_existing_items() {
    let segment = 0x11u128 << 64;
    let alignment = 0x22u128 << 64;
    let project = ProjectContents {
        segments: vec![SegmentId::from_u128(segment)],
        alignments: vec![AlignmentId::from_u128(alignment)],
    };
    let s = uuid_text(segment);
    let a = uuid_text(alignment);
    assert!(check_reveal(Some(&project), Some(&s), None, None).is_ok());
    assert!(check_reveal(Some(&project), None, Some(&a), None).is_ok());
    assert!(check_reveal(Some(&project), None, None, Some(&s)).is_ok());
    assert_eq!(check_reveal(None, Some(&s), None, None).unwrap_err().code, "project_unavailable");
    assert_eq!(check_reveal(Some(&project), None, None, None).unwrap_err().code, "invalid_request");
    assert_eq!(
        check_reveal(Some(&project), Some("not-a-uuid"), None, None).unwrap_err().message,
        "segment_id must be a stable UUID"
    );
    assert_eq!(
        check_reveal(Some(&project), Some(&a), None, None).unwrap_err().code,
        "segment_not_found"
    );
    assert_eq!(
        check_reveal(Some(&project), None, Some(&s), None).unwrap_err().code,
        "alignment_not_found"
    );
    assert_eq!(
        check_reveal(Some(&project), None, None, Some("x")).unwrap_err().message,
        "node_id must be a stable UUID"
    );
}

#[test]
fn published_context_is_checked_against_the_project() {
    let segment = 0x33u128;
    let project = ProjectContents {
        segments: vec![SegmentId::from_u128(segment)],
        alignments: vec![],
    };
    let empty: Vec<String> = vec![];
    assert!(check_context(None, false, &empty, &empty).is_ok());
    assert_eq!(check_context(None, true, &empty, &empty).unwrap_err().code, "app_context_invalid");
    assert!(check_context(Some(&project), true, &vec![uuid_text(segment)], &empty).is_ok());
    assert_eq!(
        check_context(Some(&project), true, &vec!["bad".into()], &empty).unwrap_err().message,
        "context segment_ids must contain stable UUIDs"
    );
    assert_eq!(
        check_context(Some(&project), true, &empty, &vec![uuid_text(segment)]).unwrap_err().code,
        "alignment_not_found"
    );
}

#[test]
fn acknowledgement_matches_operation_request_and_epoch() {
    let mut bindings = BoundedMap::new(MAX_BINDINGS);
    let now = current(3, 2);
    let (id, _) = bind_session(&mut bindings, Some(now), None, None).unwrap();
    let action = PendingUiAction { request_id: "nav-1".into(), epoch: Some(now), status: "accepted".into() };
    assert_eq!(
        check_ack(None, Some(&action), true, "nav-1", &bindings, Some(&id), Some(now)).unwrap(),
        "ui_applied"
    );
    assert_eq!(
        check_ack(Some("failed"), Some(&action), true, "nav-1", &bindings, Some(&id), Some(now)).unwrap(),
        "failed"
    );
    assert_eq!(
        check_ack(Some("done"), Some(&action), true, "nav-1", &bindings, Some(&id), Some(now)).unwrap_err().code,
        "invalid_request"
    );
    assert_eq!(
        check_ack(None, Some(&action), true, "nav-2", &bindings, Some(&id), Some(now)).unwrap_err().code,
        "ack_mismatch"
    );
    assert_eq!(
        check_ack(None, None, true, "nav-1", &bindings, Some(&id), Some(now)).unwrap_err().code,
        "operation_terminal"
    );
    assert_eq!(
        check_ack(None, None, false, "nav-1", &bindings, Some(&id), Some(now)).unwrap_err().code,
        "operation_not_found"
    );
    let older = PendingUiAction { request_id: "nav-1".into(), epoch: Some(current(3, 1)), status: "accepted".into() };
    assert_eq!(
        check_ack(None, Some(&older), true, "nav-1", &bindings, Some(&id), Some(now)).unwrap_err().code,
        "stale_operation_epoch"
    );
    let app_only = PendingUiAction { request_id: "nav-1".into(), epoch: None, status: "accepted".into() };
    assert!(check_ack(None, Some(&app_only), true, "nav-1", &bindings, None, None).is_ok());
    assert_eq!(
        check_ack(None, Some(&app_only), true, "nav-1", &bindings, Some(&id), Some(now)).unwrap_err().code,
        "stale_operation_epoch"
    );
}

#[test]
fn too_many_pending_actions_are_refused() {
    assert!(check_backpressure(63).is_ok());
    assert_eq!(check_backpressure(64).unwrap_err().code, "operation_backpressure");
}

#[test]
fn a_host_mutation_moves_bindings_and_clears_the_native_selection() {
    let mut bindings = BoundedMap::new(MAX_BINDINGS);
    let before = current(4, 1);
    let (id, _) = bind_session(&mut bindings, Some(before), None, None).unwrap();
    let mut context = Some(ContextSnapshot {
        selected_text: "abc".into(),
        segment_ids: vec!["s".into()],
        window_focused: true,
        focused_control: Some("editor".into()),
        ..ContextSnapshot::default()
    });
    assert_eq!(
        apply_mutation(&mut bindings, &mut context, before, current(5, 2)).unwrap_err().code,
        "project_mismatch"
    );
    assert_eq!(apply_mutation(&mut bindings, &mut context, before, before), Ok(false));
    assert_eq!(context.as_ref().unwrap().selected_text, "abc");
    let after = current(4, 2);
    assert_eq!(apply_mutation(&mut bindings, &mut context, before, after), Ok(true));
    assert!(ensure_binding(&bindings, Some(&id), Some(after)).is_ok());
    let c = context.unwrap();
    assert_eq!(c.revision_id.as_deref(), Some("2"));
    assert!(c.selected_text.is_empty() && c.segment_ids.is_empty() && !c.window_focused);
    assert_eq!(c.focused_control, None);
}

#[test]
fn replace_proposals_follow_their_lifecycle() {
    let record = |id: &str, op: &str, base: u64| ProposalRecord {
        proposal_id: id.into(),
        canonical_operation_id: op.into(),
        status: ProposalStatus::Pending,
        base_revision_id: RevisionId::new(base),
        applied_revision_id: None,
        applied_operation_id: None,
    };
    let mut proposals = vec![record("p1", "op1", 3), record("p2", "op2", 3)];
    assert_eq!(find_proposal(&proposals, "p2"), Some(1));
    assert_eq!(find_proposal(&proposals, "p9"), None);
    assert_eq!(approval_step(&proposals[0], RevisionId::new(4)).unwrap_err().code, "stale_revision");
    assert_eq!(approval_step(&proposals[0], RevisionId::new(3)).unwrap(), ApprovalStep::Apply);
    let before_apply = proposals.clone();
    begin_apply(&mut proposals, 0);
    assert_eq!(proposals[0].status, ProposalStatus::Applying);
    assert_eq!(approval_step(&proposals[0], RevisionId::new(3)).unwrap_err().code, "proposal_not_pending");
    abort_apply(&mut proposals, 0);
    assert_eq!(proposals[0].status, ProposalStatus::Pending);
    assert_eq!(proposals, before_apply);
    begin_apply(&mut proposals, 0);
    finish_apply(&mut proposals, 0, RevisionId::new(4));
    assert_eq!(proposals[0].status, ProposalStatus::Approved);
    assert_eq!(proposals[0].applied_revision_id.as_deref(), Some("4"));
    assert_eq!(proposals[0].applied_operation_id.as_deref(), Some("op1"));
    assert_eq!(approval_step(&proposals[0], RevisionId::new(9)).unwrap(), ApprovalStep::AlreadyApproved);
    reject(&mut proposals, 0);
    assert_eq!(proposals[0].status, ProposalStatus::Approved);
    reject(&mut proposals, 1);
    assert_eq!(proposals[1].status, ProposalStatus::Rejected);

    let mut reopened = vec![record("a", "op-a", 7), record("b", "op-b", 7), record("c", "op-c", 6)];
    for p in reopened.iter_mut() {
        p.status = ProposalStatus::Applying;
    }
    let committed = vec![("op-a".to_string(), RevisionId::new(8))];
    assert!(reconcile_applying(&mut reopened, &committed, RevisionId::new(7)));
    assert_eq!(reopened[0].status, ProposalStatus::Approved);
    assert_eq!(reopened[0].applied_revision_id.as_deref(), Some("8"));
    assert_eq!(reopened[1].status, ProposalStatus::Pending);
    assert_eq!(reopened[2].status, ProposalStatus::Applying);
    assert!(!reconcile_applying(&mut reopened, &committed, RevisionId::new(9)));
}

#[test]
fn operations_belong_to_their_binding_and_project() {
    let mut bindings = BoundedMap::new(MAX_BINDINGS);
    let now = current(8, 1);
    let (mine, _) = bind_session(&mut bindings, Some(now), None, None).unwrap();
    let (other, _) = bind_session(&mut bindings, Some(now), None, None).unwrap();
    let owner = OperationOwner { binding_id: Some(mine.clone()), project_id: Some(ProjectId::from_u128(8)) };
    assert!(check_operation_access(Some(&owner), &bindings, Some(&mine), Some(now)).is_ok());
    assert_eq!(
        check_operation_access(Some(&owner), &bindings, Some(&other), Some(now)).unwrap_err().code,
        "operation_forbidden"
    );
    assert_eq!(
        check_operation_access(None, &bindings, Some(&mine), Some(now)).unwrap_err().code,
        "operation_not_found"
    );
    let app_only = OperationOwner { binding_id: None, project_id: None };
    assert!(check_operation_access(Some(&app_only), &bindings, None, None).is_ok());
    assert_eq!(
        check_operation_access(Some(&app_only), &bindings, None, Some(now)).unwrap_err().code,
        "operation_forbidden"
    );
    let waiting = PendingUiAction { request_id: "r".into(), epoch: Some(now), status: "accepted".into() };
    assert!(check_cancel(Some(&waiting), &bindings, Some(&mine), Some(now)).is_ok());
    assert_eq!(
        check_cancel(Some(&waiting), &bindings, Some(&mine), Some(current(8, 2))).unwrap_err().code,
        "stale_revision"
    );
    let done = PendingUiAction { request_id: "r".into(), epoch: Some(now), status: "ui_applied".into() };
    assert_eq!(
        check_cancel(Some(&done), &bindings, Some(&mine), Some(now)).unwrap_err().code,
        "operation_not_cancellable"
    );
    assert_eq!(check_cancel(None, &bindings, Some(&mine), Some(now)).unwrap_err().code, "operation_not_cancellable");
}

#[test]
fn pipeline_proposals_need_native_approval_and_the_reviewed_method_revision() {
    assert!(require_native(true, "approve a Pipeline update").is_ok());
    let refused = require_native(false, "approve a Pipeline update").unwrap_err();
    assert_eq!(refused.code, "native_approval_required");
    assert_eq!(refused.message, "Trusted native UI is required to approve a Pipeline update.");
    let r = RevisionId::new;
    assert_eq!(pipeline_approval_step(ProposalStatus::Pending, r(2), r(2), 9, 9).unwrap(), ApprovalStep::Apply);
    assert_eq!(
        pipeline_approval_step(ProposalStatus::Pending, r(2), r(2), 9, 10).unwrap_err().code,
        "stale_method_revision"
    );
    assert_eq!(
        pipeline_approval_step(ProposalStatus::Pending, r(1), r(2), 9, 9).unwrap_err().code,
        "stale_revision"
    );
    assert_eq!(
        pipeline_approval_step(ProposalStatus::Approved, r(1), r(2), 9, 10).unwrap(),
        ApprovalStep::AlreadyApproved
    );
    assert_eq!(
        pipeline_approval_step(ProposalStatus::Rejected, r(2), r(2), 9, 9).unwrap_err().code,
        "proposal_not_pending"
    );
    assert_eq!(
        pipeline_reconcile(ProposalStatus::Applying, None, None, CommitLookup::Missing),
        (ProposalStatus::Pending, None)
    );
    assert_eq!(
        pipeline_reconcile(ProposalStatus::Applying, Some(5), None, CommitLookup::Found { exact: true }),
        (ProposalStatus::Approved, Some(5))
    );
    assert_eq!(
        pipeline_reconcile(ProposalStatus::Pending, Some(5), None, CommitLookup::Found { exact: false }),
        (ProposalStatus::Pending, None)
    );
    assert_eq!(
        pipeline_reconcile(ProposalStatus::Applying, Some(5), None, CommitLookup::Missing),
        (ProposalStatus::Pending, None)
    );
    assert_eq!(
        pipeline_reconcile(ProposalStatus::Rejected, Some(5), None, CommitLookup::Found { exact: true }),
        (ProposalStatus::Rejected, None)
    );
}

#[test]
fn segments_and_alignments_are_found_by_stable_id_for_a_bound_caller() {
    let mut bindings = BoundedMap::new(MAX_BINDINGS);
    let now = current(2, 2);
    let (id, _) = bind_session(&mut bindings, Some(now), None, None).unwrap();
    let project = ProjectContents {
        segments: vec![SegmentId::from_u128(10), SegmentId::from_u128(11)],
        alignments: vec![AlignmentId::from_u128(20)],
    };
    assert_eq!(locate_segment(&project, &uuid_text(11), &bindings, Some(&id), Some(now)), Ok(1));
    assert_eq!(
        locate_segment(&project, "nope", &bindings, None, Some(now)).unwrap_err().message,
        "segment_id must be a stable UUID"
    );
    assert_eq!(
        locate_segment(&project, &uuid_text(11), &bindings, None, Some(now)).unwrap_err().code,
        "binding_required"
    );
    assert_eq!(
        locate_segment(&project, &uuid_text(12), &bindings, Some(&id), Some(now)).unwrap_err().code,
        "segment_not_found"
    );
    assert_eq!(locate_alignment(&project, &uuid_text(20), &bindings, Some(&id), Some(now)), Ok(0));
    assert_eq!(
        locate_alignment(&project, &uuid_text(21), &bindings, Some(&id), Some(now)).unwrap_err().code,
        "alignment_not_found"
    );
}

#[test]
fn native_commands_commit_once_on_the_current_revision() {
    let now = current(1, 5);
    let project = ProjectId::from_u128(1);
    let command = CommandId::from_u128(77);
    let fingerprint = command_fingerprint(b"{\"kind\":\"update_segment\"}");
    assert_eq!(fingerprint.len(), 64);
    let mut receipts: Vec<CommandReceipt> = Vec::new();
    let gate = |receipts: &Vec<CommandReceipt>, version: &str, current: Option<Binding>, base: u64, fp: &str| {
        command_gate(version, "1", current, project, command, fp, RevisionId::new(base), receipts)
    };
    assert_eq!(gate(&receipts, "2", Some(now), 5, &fingerprint).unwrap_err().code, "unsupported");
    assert_eq!(gate(&receipts, "1", None, 5, &fingerprint).unwrap_err().code, "project_unavailable");
    assert_eq!(gate(&receipts, "1", Some(current(9, 5)), 5, &fingerprint).unwrap_err().code, "project_mismatch");
    assert_eq!(gate(&receipts, "1", Some(now), 4, &fingerprint).unwrap_err().code, "stale_revision");
    match gate(&receipts, "1", Some(now), 5, &fingerprint).unwrap() {
        CommandGate::Execute(receipt) => {
            assert_eq!(receipt.committed_revision_id, RevisionId::new(6));
            receipts.push(receipt);
        }
        other => panic!("{other:?}"),
    }
    let later = current(1, 6);
    match gate(&receipts, "1", Some(later), 5, &fingerprint).unwrap() {
        CommandGate::Duplicate(revision) => assert_eq!(revision, RevisionId::new(6)),
        other => panic!("{other:?}"),
    }
    assert_eq!(gate(&receipts, "1", Some(later), 6, "other").unwrap_err().code, "command_id_conflict");
}

#[test]
fn a_native_write_makes_an_earlier_proposal_stale() {
    let now = current(3, 1);
    let proposal = ProposalRecord {
        proposal_id: "preview-stale".into(),
        canonical_operation_id: "op".into(),
        status: ProposalStatus::Pending,
        base_revision_id: now.revision_id,
        applied_revision_id: None,
        applied_operation_id: None,
    };
    assert_eq!(approval_step(&proposal, now.revision_id).unwrap(), ApprovalStep::Apply);
    let committed = match command_gate(
        "1",
        "1",
        Some(now),
        ProjectId::from_u128(3),
        CommandId::from_u128(11),
        "fingerprint",
        now.revision_id,
        &vec![],
    )
    .unwrap()
    {
        CommandGate::Execute(receipt) => receipt.committed_revision_id,
        other => panic!("{other:?}"),
    };
    assert_eq!(committed, RevisionId::new(2));
    assert_eq!(approval_step(&proposal, committed).unwrap_err().code, "stale_revision");
}

#[test]
fn dispatch_replays_a_retried_navigation_and_refuses_another_call() {
    let now = current(1, 1);
    let mut bindings = BoundedMap::new(MAX_BINDINGS);
    let (binding, _) = bind_session(&mut bindings, Some(now), None, None).unwrap();
    let mut cache: BoundedMap<CachedReply<String>> = BoundedMap::new(MAX_RETRY_CACHE);
    match dispatch_step("ui.navigate", false, "navigate", Some(&binding), Some(now), &bindings, &cache, "history").unwrap() {
        DispatchStep::Run { route, key, remember } => {
            assert_eq!(route, HostRoute::Navigate);
            assert_eq!(key, "external:navigate");
            assert!(remember);
            cache_reply(&mut cache, key, "history".into(), "reply-1".into());
        }
        DispatchStep::Replay(_) => panic!("nothing was remembered yet"),
    }
    for i in 0..10 {
        cache_reply(&mut cache, format!("external:other-{i}"), "f".into(), "r".into());
    }
    match dispatch_step("ui.navigate", false, "navigate", Some(&binding), Some(now), &bindings, &cache, "history").unwrap() {
        DispatchStep::Replay(reply) => assert_eq!(reply, "reply-1"),
        DispatchStep::Run { .. } => panic!("the first reply is replayed"),
    }
    let conflict = dispatch_step("ui.navigate", false, "navigate", Some(&binding), Some(now), &bindings, &cache, "review");
    assert_eq!(conflict.unwrap_err().code, "request_id_conflict");
    let unbound = dispatch_step("segment.get", false, "n2", None, Some(now), &bindings, &cache, "x");
    assert_eq!(unbound.unwrap_err().code, "binding_required");
    let native_only = dispatch_step("ui.publish_context", false, "p", None, Some(now), &bindings, &cache, "x");
    assert_eq!(native_only.unwrap_err().code, "native_ui_required");
}

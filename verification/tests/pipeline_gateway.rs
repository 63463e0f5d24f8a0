//! The host's pipeline gateway, native command kinds and replayed previews.

use jueming::commands::{command_kind, NativeCommandKind};
use jueming::host::{cache_reply, CachedReply, MAX_RETRY_CACHE};
use jueming::ids::{ProjectId, RevisionId};
use jueming::pipeline::{
    artifact_query, check_cancel_owner, check_execution_revision, check_preview_base,
    execution_binding, execution_operation_id, failed_execution_status, pipeline_gate,
    ArtifactQuery, PipelineRoute, PipelineRun, PipelineRuns,
};
use jueming::proposal::{preview_replay, ProposalRecord, ProposalStatus};
use jueming::registry::BoundedMap;

fn run(project: u128, operation: &str, binding: &str) -> PipelineRun {
    PipelineRun {
        project_id: ProjectId::from_u128(project),
        operation_id: operation.into(),
        method_id: 9,
        initiating_binding_id: binding.into(),
    }
}

#[test]
fn pipeline_calls_route_and_native_actions_need_the_desktop() {
    assert_eq!(pipeline_gate("pipeline.execute", false).unwrap(), PipelineRoute::Execute);
    assert_eq!(pipeline_gate("pipeline.update", true).unwrap(), PipelineRoute::Update);
    let refused = pipeline_gate("pipeline.approve_update", false).unwrap_err();
    assert_eq!(refused.code, "native_approval_required");
    assert_eq!(refused.message, "Trusted native UI is required to approve Pipeline method proposals.");
    assert_eq!(
        pipeline_gate("pipeline.create_default", false).unwrap_err().message,
        "Trusted native UI is required to create Pipeline methods."
    );
    let unknown = pipeline_gate("pipeline.nope", true).unwrap_err();
    assert_eq!(unknown.code, "unknown_method");
    assert_eq!(unknown.message, "Unsupported Pipeline method: pipeline.nope");
}

#[test]
fn executions_check_their_inputs() {
    assert!(check_preview_base(4, 4).is_ok());
    assert_eq!(check_preview_base(4, 3).unwrap_err().code, "stale_method_revision");
    assert!(check_execution_revision(RevisionId::new(2), RevisionId::new(2)).is_ok());
    assert_eq!(
        check_execution_revision(RevisionId::new(1), RevisionId::new(2)).unwrap_err().message,
        "The supplied Pipeline input revision is no longer current; rebind first."
    );
    assert_eq!(execution_binding(Some("b")).unwrap(), "b");
    assert_eq!(execution_binding(None).unwrap_err().code, "binding_required");
    assert_eq!(execution_operation_id(Some("op-1")), "op-1");
    assert_eq!(execution_operation_id(Some("  ")).len(), 36);
    assert_eq!(execution_operation_id(None).len(), 36);
    assert_eq!(failed_execution_status("operation_cancelled"), "cancelled");
    assert_eq!(failed_execution_status("pipeline_failed"), "failed");
}

#[test]
fn artifacts_are_read_by_exactly_one_key() {
    assert_eq!(artifact_query(Some(3), None).unwrap(), ArtifactQuery::Artifact(3));
    assert_eq!(
        artifact_query(None, Some(RevisionId::new(5))).unwrap(),
        ArtifactQuery::Revision(RevisionId::new(5))
    );
    let e = artifact_query(Some(3), Some(RevisionId::new(5))).unwrap_err();
    assert_eq!(e.message, "pipeline.artifacts requires exactly one of artifact_id or input_revision_id");
    assert!(artifact_query(None, None).is_err());
}

#[test]
fn an_operation_identifier_runs_once_per_project() {
    let mut runs = PipelineRuns::new();
    assert!(runs.register(run(1, "op", "b1")).is_ok());
    assert!(runs.register(run(2, "op", "b1")).is_ok());
    let conflict = runs.register(run(1, "op", "b2")).unwrap_err();
    assert_eq!(conflict.code, "operation_conflict");
    assert_eq!(runs.find(ProjectId::from_u128(1), "op").unwrap().initiating_binding_id, "b1");
    runs.remove(ProjectId::from_u128(1), "op");
    assert!(runs.find(ProjectId::from_u128(1), "op").is_none());
    assert!(runs.find(ProjectId::from_u128(2), "op").is_some());
    assert!(runs.register(run(1, "op", "b2")).is_ok());
}

#[test]
fn only_the_initiating_binding_cancels_an_execution() {
    let r = run(1, "op", "b1");
    assert!(check_cancel_owner(Some(&r), Some("b1")).is_ok());
    assert_eq!(check_cancel_owner(Some(&r), Some("b2")).unwrap_err().code, "operation_not_owner");
    assert_eq!(check_cancel_owner(Some(&r), None).unwrap_err().code, "operation_not_owner");
    assert_eq!(check_cancel_owner(None, Some("b1")).unwrap_err().code, "operation_not_found");
}

#[test]
fn native_command_kinds_accept_their_aliases() {
    assert_eq!(command_kind("update_segment"), Some(NativeCommandKind::UpdateSegment));
    assert_eq!(command_kind("merge_alignments"), Some(NativeCommandKind::GroupAlignment));
    assert_eq!(command_kind("merge_alignment"), Some(NativeCommandKind::GroupAlignment));
    assert_eq!(command_kind("split_alignment"), Some(NativeCommandKind::UngroupAlignment));
    assert_eq!(command_kind("restore_revision"), Some(NativeCommandKind::RestoreRevision));
    assert_eq!(command_kind("UpdateSegment"), None);
}

#[test]
fn a_retried_preview_answers_with_its_proposal() {
    let proposal = |id: &str| ProposalRecord {
        proposal_id: id.into(),
        canonical_operation_id: format!("op-{id}"),
        status: ProposalStatus::Pending,
        base_revision_id: RevisionId::new(1),
        applied_revision_id: None,
        applied_operation_id: None,
    };
    let proposals = vec![proposal("p1"), proposal("p2")];
    let mut claims: BoundedMap<CachedReply<String>> = BoundedMap::new(MAX_RETRY_CACHE);
    assert_eq!(preview_replay(&claims, "external:r1", "fp", &proposals), Ok(None));
    cache_reply(&mut claims, "external:r1".into(), "fp".into(), "p2".into());
    assert_eq!(preview_replay(&claims, "external:r1", "fp", &proposals), Ok(Some(1)));
    assert_eq!(
        preview_replay(&claims, "external:r1", "other", &proposals).unwrap_err().code,
        "request_id_conflict"
    );
    let e = preview_replay(&claims, "external:r1", "fp", &vec![proposal("p1")]).unwrap_err();
    assert_eq!(e.code, "host_inconsistent");
    assert_eq!(e.message, "A completed preview request has no proposal record.");
}

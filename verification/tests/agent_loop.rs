//! The decisions of the agent's run loop.

use jueming::agent_loop::{
    after_completion, approval_kind_name, approval_listing_method, awaits_approval, begin_tool,
    begin_turn, cancellation_reason, cancelled_by_project_change, classify_host_event, end_state,
    isolated_operation_id, resume_decision, AfterCompletion, HostEventAction, LoopBudget,
    PendingApprovalKind, ResumeDecision, RunEnd, ToolStart, TurnStart,
};
use jueming::provider::{isolated_tool_arguments, ToolCall};
use jueming::runtime::{host_tool_method, provider_tool_name, RunState, RuntimeEventKind};

#[test]
fn pipeline_execution_operation_ids_are_runtime_scoped() {
    let call = ToolCall {
        id: "model-reused-call".into(),
        name: "pipeline.execute".into(),
        arguments: r#"{"method_id":"method","segment_id":"segment","base_revision_id":"revision","operation_id":"model-value"}"#.into(),
    };
    let operation = |params: &[(String, String)]| -> String {
        let found: Vec<&(String, String)> = params.iter().filter(|(k, _)| k == "operation_id").collect();
        assert_eq!(found.len(), 1);
        serde_json::from_str(&found[0].1).unwrap()
    };
    let first = isolated_tool_arguments("run-a", &call);
    let second = isolated_tool_arguments("run-b", &call);
    assert_ne!(operation(&first), operation(&second));
    assert!(operation(&first).starts_with("agent-runtime:run-a:"));
    assert_ne!(operation(&first), "model-value");
    assert_eq!(first.len(), 4);
    let direct = isolated_operation_id("pipeline.execute", "run-a").unwrap();
    assert!(direct.starts_with("agent-runtime:run-a:"));
    assert_eq!(direct.len(), "agent-runtime:run-a:".len() + 36);
    assert_eq!(isolated_operation_id("segment.get", "run-a"), None);
}

#[test]
fn a_turn_checks_cancellation_then_budget() {
    let budget = LoopBudget::fresh();
    match begin_turn(Some("project_changed".into()), budget) {
        TurnStart::Cancel(reason) => assert_eq!(reason, "project_changed"),
        other => panic!("{other:?}"),
    }
    match begin_turn(None, budget) {
        TurnStart::Ask(next) => assert_eq!(next.model_turns, 1),
        other => panic!("{other:?}"),
    }
    let spent = LoopBudget { model_turns: 16, tool_steps: 0, output_bytes: 0 };
    assert!(matches!(begin_turn(None, spent), TurnStart::OverBudget));
    let tools = LoopBudget { model_turns: 2, tool_steps: 12, output_bytes: 0 };
    assert!(matches!(begin_turn(None, tools), TurnStart::OverBudget));
    let bytes = LoopBudget { model_turns: 2, tool_steps: 0, output_bytes: 98304 };
    assert!(matches!(begin_turn(None, bytes), TurnStart::OverBudget));
    let last = LoopBudget { model_turns: 15, tool_steps: 11, output_bytes: 98303 };
    match begin_turn(None, last) {
        TurnStart::Ask(next) => assert_eq!(next.model_turns, 16),
        other => panic!("{other:?}"),
    }
}

#[test]
fn completions_count_output_and_end_without_tools() {
    let budget = LoopBudget { model_turns: 1, tool_steps: 0, output_bytes: 10 };
    assert_eq!(
        after_completion(budget, 5, 0),
        AfterCompletion::Complete(LoopBudget { model_turns: 1, tool_steps: 0, output_bytes: 15 })
    );
    assert_eq!(
        after_completion(budget, 0, 2),
        AfterCompletion::RunTools(budget)
    );
}

#[test]
fn tools_must_be_allowed_and_are_counted() {
    let budget = LoopBudget { model_turns: 1, tool_steps: 3, output_bytes: 0 };
    assert_eq!(begin_tool(budget, "proposal.approve"), ToolStart::Disallowed);
    assert_eq!(
        begin_tool(budget, "segment.get"),
        ToolStart::Dispatch(LoopBudget { model_turns: 1, tool_steps: 4, output_bytes: 0 })
    );
}

#[test]
fn previews_with_a_proposal_pause_the_run() {
    assert_eq!(awaits_approval("proposal.preview_replace", "p-1"), Some(PendingApprovalKind::Replace));
    assert_eq!(awaits_approval("pipeline.preview_update", "p-2"), Some(PendingApprovalKind::PipelineMethod));
    assert_eq!(awaits_approval("proposal.preview_replace", ""), None);
    assert_eq!(awaits_approval("segment.get", "p-1"), None);
    assert_eq!(approval_listing_method(PendingApprovalKind::Replace), "proposal.list");
    assert_eq!(approval_listing_method(PendingApprovalKind::PipelineMethod), "pipeline.list_proposals");
    assert_eq!(approval_kind_name(PendingApprovalKind::PipelineMethod), "pipeline_method");
}

#[test]
fn a_paused_run_follows_its_proposal() {
    assert_eq!(resume_decision(true, Some("approved")), ResumeDecision::Cancel);
    assert_eq!(resume_decision(false, Some("approved")), ResumeDecision::Resume);
    assert_eq!(resume_decision(false, Some("rejected")), ResumeDecision::Reject);
    assert_eq!(resume_decision(false, Some("pending")), ResumeDecision::KeepWaiting);
    assert_eq!(resume_decision(false, Some("applying")), ResumeDecision::KeepWaiting);
    assert_eq!(resume_decision(false, Some("expired")), ResumeDecision::Fail);
    assert_eq!(resume_decision(false, None), ResumeDecision::Fail);
}

#[test]
fn host_events_resume_cancel_or_ignore() {
    match classify_host_event("proposal_changed", Some("p"), Some("approved"), None) {
        HostEventAction::Resume(id, kind) => {
            assert_eq!(id, "p");
            assert_eq!(kind, PendingApprovalKind::Replace);
        }
        other => panic!("{other:?}"),
    }
    assert!(matches!(
        classify_host_event("proposal_changed", Some("p"), Some("rejected"), None),
        HostEventAction::CancelPending(_, PendingApprovalKind::Replace)
    ));
    assert!(matches!(
        classify_host_event("proposal_changed", Some("p"), Some("pending"), None),
        HostEventAction::Ignore
    ));
    assert!(matches!(
        classify_host_event("pipeline_changed", None, None, None),
        HostEventAction::ResolvePipelines
    ));
    match classify_host_event("project_changed", None, None, Some("proj")) {
        HostEventAction::ProjectChanged(p) => assert_eq!(p.as_deref(), Some("proj")),
        other => panic!("{other:?}"),
    }
    assert!(matches!(classify_host_event("other", None, None, None), HostEventAction::Ignore));
}

#[test]
fn project_changes_cancel_other_projects_runs() {
    assert!(!cancelled_by_project_change("a", Some("a")));
    assert!(cancelled_by_project_change("a", Some("b")));
    assert!(cancelled_by_project_change("a", None));
}

#[test]
fn finished_runs_are_recorded_and_announced() {
    assert_eq!(end_state(RunEnd::Completed), (RunState::Completed, RuntimeEventKind::RunCompleted));
    assert_eq!(end_state(RunEnd::Cancelled), (RunState::Cancelled, RuntimeEventKind::RunCancelled));
    assert_eq!(end_state(RunEnd::Failed), (RunState::Failed, RuntimeEventKind::RunFailed));
    assert_eq!(cancellation_reason(false, Some("x".into())), None);
    assert_eq!(cancellation_reason(true, None).as_deref(), Some("cancelled"));
    assert_eq!(cancellation_reason(true, Some("project_changed".into())).as_deref(), Some("project_changed"));
}

#[test]
fn every_tool_alias_maps_back_to_its_host_method() {
    let methods = [
        "project.get_summary", "segment.get", "alignment.get", "search.execute",
        "search.get_results", "proposal.preview_replace", "proposal.list", "proposal.reject",
        "ui.navigate", "ui.reveal", "pipeline.list", "pipeline.get", "pipeline.preview_update",
        "pipeline.list_proposals", "pipeline.execute",
    ];
    for method in methods {
        let alias = provider_tool_name(method).unwrap();
        assert_eq!(alias, format!("jueming_{}", method.replace('.', "_")));
        assert_eq!(host_tool_method(alias).unwrap(), method);
    }
}

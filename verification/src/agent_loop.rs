//! The decisions of the embedded agent's run loop. Each function takes the
//! loop's state and what the outside world answered (a cancellation flag, a
//! model completion, a tool reply, a proposal's status) and says what the
//! loop does next; the caller performs the work and reports back.
use vstd::prelude::*;
use crate::ids::{is_uuid_v7, spec_uuid_text, OperationId};
use crate::runtime::{
    allowed_tool, alias_of, spec_budget_exhausted, tool_aliases, RunState, RuntimeError, RuntimeEventKind,
    MAX_MODEL_TURNS, MAX_PROVIDER_RESPONSE_BYTES,
};
use crate::strings::{append_str, str_eq};

verus! {

/// What a run has spent of its budget.
#[derive(Clone, Copy, Debug, PartialEq, Eq, Structural)]
pub struct LoopBudget {
    pub model_turns: u32,
    pub tool_steps: u32,
    pub output_bytes: usize,
}

impl LoopBudget {
    /// Nothing spent yet.
    pub fn fresh() -> (r: Self)
        ensures
            r.model_turns == 0 && r.tool_steps == 0 && r.output_bytes == 0,
    {
        LoopBudget { model_turns: 0, tool_steps: 0, output_bytes: 0 }
    }
}

/// The instruction every run's conversation starts with.
pub const SYSTEM_PROMPT: &'static str = "You are the local Jueming Aligner assistant. Use tools only for the open project. Never claim approval is complete; replacement proposals require native approval.";

/// Accepts one more chunk of a provider's response body unless the body
/// would grow past the runtime's limit; answers the new body length.
pub fn accept_response_chunk(received: usize, chunk: usize) -> (r: Result<usize, RuntimeError>)
    ensures
        received + chunk <= MAX_PROVIDER_RESPONSE_BYTES ==> r == Ok::<usize, RuntimeError>((received + chunk) as usize),
        received + chunk > MAX_PROVIDER_RESPONSE_BYTES ==> (r matches Err(RuntimeError::InvalidConfiguration(m))
            && m@ == "provider response exceeded runtime byte limit"@),
{
    let total = received.saturating_add(chunk);
    if total > MAX_PROVIDER_RESPONSE_BYTES {
        return Err(RuntimeError::InvalidConfiguration("provider response exceeded runtime byte limit".to_owned()));
    }
    Ok(total)
}

/// How a run ends.
#[derive(Clone, Copy, Debug, PartialEq, Eq, Structural)]
pub enum RunEnd {
    Completed,
    Cancelled,
    Failed,
}

/// The state a finished run is recorded in and the event that announces it.
pub fn end_state(end: RunEnd) -> (r: (RunState, RuntimeEventKind))
    ensures
        r == match end {
            RunEnd::Completed => (RunState::Completed, RuntimeEventKind::RunCompleted),
            RunEnd::Cancelled => (RunState::Cancelled, RuntimeEventKind::RunCancelled),
            RunEnd::Failed => (RunState::Failed, RuntimeEventKind::RunFailed),
        },
{
    match end {
        RunEnd::Completed => (RunState::Completed, RuntimeEventKind::RunCompleted),
        RunEnd::Cancelled => (RunState::Cancelled, RuntimeEventKind::RunCancelled),
        RunEnd::Failed => (RunState::Failed, RuntimeEventKind::RunFailed),
    }
}

/// The reason a run was cancelled with, when its cancellation flag is set:
/// the recorded reason, else `cancelled`.
pub fn cancellation_reason(cancelled: bool, reason: Option<String>) -> (r: Option<String>)
    ensures
        !cancelled ==> r is None,
        cancelled ==> (r matches Some(x) && x@ == match reason {
            Some(s) => s@,
            None => "cancelled"@,
        }),
{
    if !cancelled {
        return None;
    }
    match reason {
        Some(s) => Some(s),
        None => Some("cancelled".to_owned()),
    }
}

/// What the loop does at the top of a turn.
#[derive(Clone, Debug)]
pub enum TurnStart {
    /// The run was cancelled, for this reason.
    Cancel(String),
    /// The budget is spent; the run fails.
    OverBudget,
    /// Ask the model again, with this turn counted.
    Ask(LoopBudget),
}

/// Starts a turn: a cancellation ends the run first, a spent budget next;
/// otherwise the model is asked once more.
pub fn begin_turn(cancellation: Option<String>, budget: LoopBudget) -> (r: TurnStart)
    ensures
        match cancellation {
            Some(reason) => r matches TurnStart::Cancel(x) && x == reason,
            None => if spec_budget_exhausted(budget.model_turns, budget.tool_steps, budget.output_bytes) {
                r is OverBudget
            } else {
                r matches TurnStart::Ask(b) && b == (LoopBudget { model_turns: (budget.model_turns + 1) as u32, ..budget })
            },
        },
        r matches TurnStart::Ask(b) ==> b.model_turns <= MAX_MODEL_TURNS,
{
    if let Some(reason) = cancellation {
        return TurnStart::Cancel(reason);
    }
    if crate::runtime::budget_exhausted(budget.model_turns, budget.tool_steps, budget.output_bytes) {
        return TurnStart::OverBudget;
    }
    TurnStart::Ask(LoopBudget { model_turns: budget.model_turns + 1, ..budget })
}

/// What the loop does with a model completion.
#[derive(Clone, Copy, Debug, PartialEq, Eq, Structural)]
pub enum AfterCompletion {
    /// No tool was requested: the run completes with the completion's text.
    Complete(LoopBudget),
    /// Run the requested tools in order.
    RunTools(LoopBudget),
}

/// Counts a completion's text against the output budget and decides whether
/// the run is done.
pub fn after_completion(budget: LoopBudget, content_bytes: usize, tool_calls: usize) -> (r: AfterCompletion)
    requires
        budget.output_bytes + content_bytes <= usize::MAX,
    ensures
        ({
            let b = LoopBudget { output_bytes: (budget.output_bytes + content_bytes) as usize, ..budget };
            if tool_calls == 0 { r == AfterCompletion::Complete(b) } else { r == AfterCompletion::RunTools(b) }
        }),
{
    let b = LoopBudget { output_bytes: budget.output_bytes + content_bytes, ..budget };
    if tool_calls == 0 {
        AfterCompletion::Complete(b)
    } else {
        AfterCompletion::RunTools(b)
    }
}

/// One step of a run's loop, as the budget sees it: a turn that asks the
/// model, a completion of so many bytes, or a dispatched tool call.
#[derive(Clone, Copy, Debug, PartialEq, Eq, Structural)]
pub enum LoopEvent {
    Turn,
    Completion(usize),
    Tool,
}

/// The budget after one step, as `begin_turn`, `after_completion` and
/// `begin_tool` count it; `None` where the step cannot happen (a turn over
/// budget ends the run instead).
pub open spec fn budget_after(b: LoopBudget, e: LoopEvent) -> Option<LoopBudget> {
    match e {
        LoopEvent::Turn => if spec_budget_exhausted(b.model_turns, b.tool_steps, b.output_bytes) {
            None
        } else {
            Some(LoopBudget { model_turns: (b.model_turns + 1) as u32, ..b })
        },
        LoopEvent::Completion(n) => if b.output_bytes + n <= usize::MAX {
            Some(LoopBudget { output_bytes: (b.output_bytes + n) as usize, ..b })
        } else {
            None
        },
        LoopEvent::Tool => if b.tool_steps < u32::MAX {
            Some(LoopBudget { tool_steps: (b.tool_steps + 1) as u32, ..b })
        } else {
            None
        },
    }
}

/// The budget after the first `n` steps of a run that starts fresh.
pub open spec fn run_budget(events: Seq<LoopEvent>, n: int) -> Option<LoopBudget>
    decreases n,
{
    if n <= 0 || n > events.len() {
        Some(LoopBudget { model_turns: 0, tool_steps: 0, output_bytes: 0 })
    } else {
        match run_budget(events, n - 1) {
            None => None,
            Some(b) => budget_after(b, events[n - 1]),
        }
    }
}

/// How many of the first `n` steps ask the model.
pub open spec fn model_calls(events: Seq<LoopEvent>, n: int) -> int
    decreases n,
{
    if n <= 0 || n > events.len() {
        0
    } else {
        model_calls(events, n - 1) + if events[n - 1] == LoopEvent::Turn { 1int } else { 0int }
    }
}

/// A run asks the model at most `MAX_MODEL_TURNS` times: every turn is
/// counted, nothing else changes the count, and no turn starts once the
/// count is spent.
pub proof fn model_calls_within_budget(events: Seq<LoopEvent>, n: int)
    requires
        0 <= n <= events.len(),
        run_budget(events, n) is Some,
    ensures
        model_calls(events, n) == run_budget(events, n)->0.model_turns,
        model_calls(events, n) <= MAX_MODEL_TURNS,
    decreases n,
{
    if n > 0 {
        model_calls_within_budget(events, n - 1);
    }
}

/// What the loop does with one requested tool call.
#[derive(Clone, Copy, Debug, PartialEq, Eq, Structural)]
pub enum ToolStart {
    /// The model asked for a tool it may not use: the run fails.
    Disallowed,
    /// Dispatch the call, with this step counted.
    Dispatch(LoopBudget),
}

pub fn begin_tool(budget: LoopBudget, name: &str) -> (r: ToolStart)
    requires
        budget.tool_steps < u32::MAX,
    ensures
        if alias_of(tool_aliases(), name@) is Some {
            r == ToolStart::Dispatch(LoopBudget { tool_steps: (budget.tool_steps + 1) as u32, ..budget })
        } else {
            r == ToolStart::Disallowed
        },
{
    if !allowed_tool(name) {
        return ToolStart::Disallowed;
    }
    ToolStart::Dispatch(LoopBudget { tool_steps: budget.tool_steps + 1, ..budget })
}

/// Which kind of human approval a paused run waits for.
#[derive(Clone, Copy, Debug, PartialEq, Eq, Structural)]
pub enum PendingApprovalKind {
    Replace,
    PipelineMethod,
}

/// Whether a tool reply pauses the run for approval: a replace preview or a
/// pipeline update preview that produced a proposal does.
pub open spec fn spec_awaits_approval(tool: Seq<char>, proposal_id: Seq<char>) -> Option<PendingApprovalKind> {
    if proposal_id.len() == 0 {
        None
    } else if tool == "proposal.preview_replace"@ {
        Some(PendingApprovalKind::Replace)
    } else if tool == "pipeline.preview_update"@ {
        Some(PendingApprovalKind::PipelineMethod)
    } else {
        None
    }
}

pub fn awaits_approval(tool: &str, proposal_id: &str) -> (r: Option<PendingApprovalKind>)
    ensures
        r == spec_awaits_approval(tool@, proposal_id@),
{
    if proposal_id.unicode_len() == 0 {
        return None;
    }
    if str_eq(tool, "proposal.preview_replace") {
        Some(PendingApprovalKind::Replace)
    } else if str_eq(tool, "pipeline.preview_update") {
        Some(PendingApprovalKind::PipelineMethod)
    } else {
        None
    }
}

/// The host method that lists the proposals of an approval kind.
pub fn approval_listing_method(kind: PendingApprovalKind) -> (r: &'static str)
    ensures
        r@ == match kind {
            PendingApprovalKind::Replace => "proposal.list"@,
            PendingApprovalKind::PipelineMethod => "pipeline.list_proposals"@,
        },
{
    match kind {
        PendingApprovalKind::Replace => "proposal.list",
        PendingApprovalKind::PipelineMethod => "pipeline.list_proposals",
    }
}

/// The name an approval kind has in the message that resumes a run.
pub fn approval_kind_name(kind: PendingApprovalKind) -> (r: &'static str)
    ensures
        r@ == match kind {
            PendingApprovalKind::Replace => "replace"@,
            PendingApprovalKind::PipelineMethod => "pipeline_method"@,
        },
{
    match kind {
        PendingApprovalKind::Replace => "replace",
        PendingApprovalKind::PipelineMethod => "pipeline_method",
    }
}

/// What a paused run does once its proposal's status has been looked up.
#[derive(Clone, Copy, Debug, PartialEq, Eq, Structural)]
pub enum ResumeDecision {
    /// The run was cancelled meanwhile.
    Cancel,
    /// The proposal was approved: the loop goes on.
    Resume,
    /// The proposal was rejected: the run is cancelled.
    Reject,
    /// The proposal is still open: keep waiting.
    KeepWaiting,
    /// The proposal could not be found: the run fails.
    Fail,
}

pub open spec fn spec_resume_decision(cancelled: bool, status: Option<Seq<char>>) -> ResumeDecision {
    if cancelled {
        ResumeDecision::Cancel
    } else {
        match status {
            Some(s) => if s == "approved"@ {
                ResumeDecision::Resume
            } else if s == "rejected"@ {
                ResumeDecision::Reject
            } else if s == "pending"@ || s == "applying"@ {
                ResumeDecision::KeepWaiting
            } else {
                ResumeDecision::Fail
            },
            None => ResumeDecision::Fail,
        }
    }
}

pub fn resume_decision(cancelled: bool, status: Option<&str>) -> (r: ResumeDecision)
    ensures
        r == spec_resume_decision(cancelled, match status { Some(s) => Some(s@), None => None }),
{
    if cancelled {
        return ResumeDecision::Cancel;
    }
    match status {
        Some(s) => {
            if str_eq(s, "approved") {
                ResumeDecision::Resume
            } else if str_eq(s, "rejected") {
                ResumeDecision::Reject
            } else if str_eq(s, "pending") || str_eq(s, "applying") {
                ResumeDecision::KeepWaiting
            } else {
                ResumeDecision::Fail
            }
        },
        None => ResumeDecision::Fail,
    }
}

/// A run of another project than the one now open is cancelled when the
/// open project changes.
pub fn cancelled_by_project_change(run_project: &str, current_project: Option<&str>) -> (r: bool)
    ensures
        r == !(current_project matches Some(c) && c@ == run_project@),
{
    match current_project {
        Some(c) => !str_eq(c, run_project),
        None => true,
    }
}

/// What the runtime does with an event the host publishes.
#[derive(Clone, Debug)]
pub enum HostEventAction {
    /// Re-examine the run paused on this proposal.
    Resume(String, PendingApprovalKind),
    /// Cancel the run paused on this proposal.
    CancelPending(String, PendingApprovalKind),
    /// Re-examine every run paused on a pipeline proposal.
    ResolvePipelines,
    /// Cancel the runs of other projects than this one.
    ProjectChanged(Option<String>),
    Ignore,
}

/// Classifies a host event: an approved or rejected replace proposal resumes
/// or cancels its run, a pipeline change re-examines pipeline approvals, and
/// a project change cancels the runs of other projects.
pub fn classify_host_event(
    kind: &str,
    proposal_id: Option<&str>,
    status: Option<&str>,
    project_id: Option<&str>,
) -> (r: HostEventAction)
    ensures
        kind@ == "proposal_changed"@ ==> match (proposal_id, status) {
            (Some(id), Some(s)) => if s@ == "approved"@ {
                r matches HostEventAction::Resume(x, k) && x@ == id@ && k == PendingApprovalKind::Replace
            } else if s@ == "rejected"@ {
                r matches HostEventAction::CancelPending(x, k) && x@ == id@ && k == PendingApprovalKind::Replace
            } else {
                r is Ignore
            },
            _ => r is Ignore,
        },
        kind@ == "pipeline_changed"@ ==> r is ResolvePipelines,
        kind@ == "project_changed"@ ==> (r matches HostEventAction::ProjectChanged(p) && match project_id {
            Some(x) => p matches Some(y) && y@ == x@,
            None => p is None,
        }),
        !(kind@ == "proposal_changed"@ || kind@ == "pipeline_changed"@ || kind@ == "project_changed"@) ==> r is Ignore,
{
    if str_eq(kind, "proposal_changed") {
        proof {
            reveal_strlit("proposal_changed");
            reveal_strlit("pipeline_changed");
            reveal_strlit("project_changed");
            assert("proposal_changed"@[1] != "pipeline_changed"@[1]);
            assert("proposal_changed"@.len() != "project_changed"@.len());
        }
        match (proposal_id, status) {
            (Some(id), Some(s)) => {
                if str_eq(s, "approved") {
                    return HostEventAction::Resume(id.to_owned(), PendingApprovalKind::Replace);
                }
                if str_eq(s, "rejected") {
                    return HostEventAction::CancelPending(id.to_owned(), PendingApprovalKind::Replace);
                }
                return HostEventAction::Ignore;
            },
            _ => return HostEventAction::Ignore,
        }
    }
    if str_eq(kind, "pipeline_changed") {
        proof {
            reveal_strlit("pipeline_changed");
            reveal_strlit("project_changed");
            assert("pipeline_changed"@.len() != "project_changed"@.len());
        }
        return HostEventAction::ResolvePipelines;
    }
    if str_eq(kind, "project_changed") {
        return HostEventAction::ProjectChanged(match project_id {
            Some(p) => Some(p.to_owned()),
            None => None,
        });
    }
    HostEventAction::Ignore
}

/// The operation identifier a pipeline execution that the model asks for
/// runs under: the model never chooses it; it names the run and a fresh
/// identifier. Other tools get none.
pub fn isolated_operation_id(tool: &str, run_id: &str) -> (r: Option<String>)
    ensures
        tool@ != "pipeline.execute"@ ==> r is None,
        tool@ == "pipeline.execute"@ ==> (r matches Some(x) && exists|v: u128|
            is_uuid_v7(v) && x@ == "agent-runtime:"@ + run_id@ + ":"@ + spec_uuid_text(v)),
{
    if !str_eq(tool, "pipeline.execute") {
        return None;
    }
    let fresh = OperationId::new();
    let mut id = "agent-runtime:".to_owned();
    append_str(&mut id, run_id);
    append_str(&mut id, ":");
    let text = fresh.text();
    append_str(&mut id, text.as_str());
    Some(id)
}

} // verus!

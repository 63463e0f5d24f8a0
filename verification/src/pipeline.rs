//! The host's gateway to pipeline methods: which calls it serves and for
//! whom, what an execution is checked against, and the registry of the
//! executions in progress, by project and operation identifier.
use vstd::prelude::*;
use crate::application::{refused, AppError};
use crate::ids::{spec_uuid_text, OperationId, ProjectId, RevisionId};
use crate::proposal::require_native;
use crate::strings::{append_str, chars_of, str_eq};
use crate::text::{trim, trim_chars};

verus! {

/// What a pipeline method does.
#[derive(Clone, Copy, Debug, PartialEq, Eq, Structural)]
pub enum PipelineRoute {
    List,
    Get,
    CreateDefault,
    Update,
    PreviewUpdate,
    ApproveUpdate,
    RejectUpdate,
    ListProposals,
    Execute,
    Artifacts,
    Cancel,
}

pub open spec fn pipeline_route_of(method: Seq<char>) -> Option<PipelineRoute> {
    if method == "pipeline.list"@ { Some(PipelineRoute::List) }
    else if method == "pipeline.get"@ { Some(PipelineRoute::Get) }
    else if method == "pipeline.create_default"@ { Some(PipelineRoute::CreateDefault) }
    else if method == "pipeline.update"@ { Some(PipelineRoute::Update) }
    else if method == "pipeline.preview_update"@ { Some(PipelineRoute::PreviewUpdate) }
    else if method == "pipeline.approve_update"@ { Some(PipelineRoute::ApproveUpdate) }
    else if method == "pipeline.reject_update"@ { Some(PipelineRoute::RejectUpdate) }
    else if method == "pipeline.list_proposals"@ { Some(PipelineRoute::ListProposals) }
    else if method == "pipeline.execute"@ { Some(PipelineRoute::Execute) }
    else if method == "pipeline.artifacts"@ { Some(PipelineRoute::Artifacts) }
    else if method == "pipeline.cancel"@ { Some(PipelineRoute::Cancel) }
    else { None }
}

/// What only the trusted native client may do: create, edit or approve a method.
pub open spec fn native_action(route: PipelineRoute) -> Option<Seq<char>> {
    match route {
        PipelineRoute::CreateDefault => Some("create Pipeline methods"@),
        PipelineRoute::Update => Some("update Pipeline methods"@),
        PipelineRoute::ApproveUpdate => Some("approve Pipeline method proposals"@),
        _ => None,
    }
}

/// The handler of a pipeline call, or its refusal: an unknown method, or a
/// native-only action asked for by another caller.
pub open spec fn spec_pipeline_gate(method: Seq<char>, trusted_native: bool) -> Result<PipelineRoute, (Seq<char>, Seq<char>)> {
    match pipeline_route_of(method) {
        None => Err(("unknown_method"@, "Unsupported Pipeline method: "@ + method)),
        Some(route) => match native_action(route) {
            Some(action) if !trusted_native => Err(("native_approval_required"@, "Trusted native UI is required to "@ + action + "."@)),
            _ => Ok(route),
        },
    }
}

fn pipeline_route_exec(method: &str) -> (r: Option<PipelineRoute>)
    ensures
        r == pipeline_route_of(method@),
{
    if str_eq(method, "pipeline.list") { Some(PipelineRoute::List) }
    else if str_eq(method, "pipeline.get") { Some(PipelineRoute::Get) }
    else if str_eq(method, "pipeline.create_default") { Some(PipelineRoute::CreateDefault) }
    else if str_eq(method, "pipeline.update") { Some(PipelineRoute::Update) }
    else if str_eq(method, "pipeline.preview_update") { Some(PipelineRoute::PreviewUpdate) }
    else if str_eq(method, "pipeline.approve_update") { Some(PipelineRoute::ApproveUpdate) }
    else if str_eq(method, "pipeline.reject_update") { Some(PipelineRoute::RejectUpdate) }
    else if str_eq(method, "pipeline.list_proposals") { Some(PipelineRoute::ListProposals) }
    else if str_eq(method, "pipeline.execute") { Some(PipelineRoute::Execute) }
    else if str_eq(method, "pipeline.artifacts") { Some(PipelineRoute::Artifacts) }
    else if str_eq(method, "pipeline.cancel") { Some(PipelineRoute::Cancel) }
    else { None }
}

/// Chooses the handler of a pipeline call.
pub fn pipeline_gate(method: &str, trusted_native: bool) -> (r: Result<PipelineRoute, AppError>)
    ensures
        match spec_pipeline_gate(method@, trusted_native) {
            Ok(route) => r == Ok::<PipelineRoute, AppError>(route),
            Err(p) => refused(r, p),
        },
{
    let route = match pipeline_route_exec(method) {
        Some(route) => route,
        None => {
            let mut message = "Unsupported Pipeline method: ".to_owned();
            append_str(&mut message, method);
            return Err(AppError { code: "unknown_method".to_owned(), message });
        },
    };
    let action = match route {
        PipelineRoute::CreateDefault => Some("create Pipeline methods"),
        PipelineRoute::Update => Some("update Pipeline methods"),
        PipelineRoute::ApproveUpdate => Some("approve Pipeline method proposals"),
        _ => None,
    };
    match action {
        Some(a) => match require_native(trusted_native, a) {
            Ok(()) => Ok(route),
            Err(e) => Err(e),
        },
        None => Ok(route),
    }
}

/// An update proposal is prepared only against the method's current revision.
pub fn check_preview_base(current_method_revision: u128, base_method_revision: u128) -> (r: Result<(), AppError>)
    ensures
        current_method_revision == base_method_revision ==> r is Ok,
        current_method_revision != base_method_revision ==> refused(
            r,
            ("stale_method_revision"@, "The method changed; reload it before preparing an update proposal."@),
        ),
{
    if current_method_revision == base_method_revision {
        Ok(())
    } else {
        Err(AppError::new("stale_method_revision", "The method changed; reload it before preparing an update proposal."))
    }
}

/// An execution reads the revision its caller is bound to, which must still be current.
pub fn check_execution_revision(base: RevisionId, current: RevisionId) -> (r: Result<(), AppError>)
    ensures
        base == current ==> r is Ok,
        base != current ==> refused(
            r,
            ("stale_revision"@, "The supplied Pipeline input revision is no longer current; rebind first."@),
        ),
{
    if base == current {
        Ok(())
    } else {
        Err(AppError::new("stale_revision", "The supplied Pipeline input revision is no longer current; rebind first."))
    }
}

/// An execution belongs to the binding that starts it.
pub fn execution_binding(binding: Option<&str>) -> (r: Result<String, AppError>)
    ensures
        binding matches Some(b) ==> (r matches Ok(s) && s@ == b@),
        binding is None ==> refused(r, ("binding_required"@, "Pipeline execution requires a binding."@)),
{
    match binding {
        Some(b) => Ok(b.to_owned()),
        None => Err(AppError::new("binding_required", "Pipeline execution requires a binding.")),
    }
}

/// The operation identifier of an execution: the one the caller gave when it
/// is not blank, else a fresh identifier.
pub fn execution_operation_id(requested: Option<&str>) -> (r: String)
    ensures
        (requested matches Some(o) && trim(o@).len() > 0) ==> r@ == requested->0@,
        !(requested matches Some(o) && trim(o@).len() > 0) ==> exists|v: u128| r@ == spec_uuid_text(v),
{
    match requested {
        Some(o) => {
            if trim_chars(&chars_of(o)).len() > 0 {
                return o.to_owned();
            }
        },
        None => {},
    }
    OperationId::new().text()
}

/// The status an execution that failed ends in: `cancelled` when the
/// pipeline reported its cancellation, else `failed`.
pub fn failed_execution_status(code: &str) -> (r: &'static str)
    ensures
        code@ == "operation_cancelled"@ ==> r@ == "cancelled"@,
        code@ != "operation_cancelled"@ ==> r@ == "failed"@,
{
    if str_eq(code, "operation_cancelled") { "cancelled" } else { "failed" }
}

/// What a request for pipeline artifacts reads.
#[derive(Clone, Copy, Debug, PartialEq, Eq, Structural)]
pub enum ArtifactQuery {
    /// One artifact, by its identifier.
    Artifact(u128),
    /// The artifacts computed from one project revision.
    Revision(RevisionId),
}

/// Artifacts are read by exactly one of an artifact identifier and an input revision.
pub fn artifact_query(artifact_id: Option<u128>, input_revision_id: Option<RevisionId>) -> (r: Result<ArtifactQuery, AppError>)
    ensures
        match (artifact_id, input_revision_id) {
            (Some(a), None) => r == Ok::<ArtifactQuery, AppError>(ArtifactQuery::Artifact(a)),
            (None, Some(v)) => r == Ok::<ArtifactQuery, AppError>(ArtifactQuery::Revision(v)),
            _ => refused(r, ("invalid_request"@, "pipeline.artifacts requires exactly one of artifact_id or input_revision_id"@)),
        },
{
    match (artifact_id, input_revision_id) {
        (Some(a), None) => Ok(ArtifactQuery::Artifact(a)),
        (None, Some(v)) => Ok(ArtifactQuery::Revision(v)),
        _ => Err(AppError::invalid("pipeline.artifacts requires exactly one of artifact_id or input_revision_id")),
    }
}

/// An execution in progress.
#[derive(Clone, Debug)]
pub struct PipelineRun {
    pub project_id: ProjectId,
    pub operation_id: String,
    pub method_id: u128,
    pub initiating_binding_id: String,
}

/// The run is the one of the project under the operation identifier.
pub open spec fn run_is(run: PipelineRun, project: ProjectId, operation: Seq<char>) -> bool {
    run.project_id == project && run.operation_id@ == operation
}

/// Some run of the sequence is the project's under the operation identifier.
pub open spec fn has_run(runs: Seq<PipelineRun>, project: ProjectId, operation: Seq<char>) -> bool {
    exists|i: int| 0 <= i < runs.len() && run_is(#[trigger] runs[i], project, operation)
}

/// The executions in progress, at most one per project and operation identifier.
pub struct PipelineRuns {
    runs: Vec<PipelineRun>,
}

impl PipelineRuns {
    pub closed spec fn view(&self) -> Seq<PipelineRun> {
        self.runs@
    }

    /// No project and operation identifier has two runs.
    pub open spec fn wf(&self) -> bool {
        forall|i: int, j: int| 0 <= i < j < self@.len() ==> !run_is(
            #[trigger] self@[i],
            #[trigger] self@[j].project_id,
            self@[j].operation_id@,
        )
    }

    pub fn new() -> (r: Self)
        ensures
            r@.len() == 0,
            r.wf(),
    {
        PipelineRuns { runs: Vec::new() }
    }

    fn position(&self, project: ProjectId, operation: &str) -> (r: Option<usize>)
        ensures
            match r {
                Some(i) => i < self@.len() && run_is(self@[i as int], project, operation@),
                None => !has_run(self@, project, operation@),
            },
    {
        let mut i: usize = 0;
        while i < self.runs.len()
            invariant
                0 <= i <= self@.len(),
                self@ == self.runs@,
                forall|j: int| 0 <= j < i ==> !run_is(#[trigger] self@[j], project, operation@),
            decreases self@.len() - i,
        {
            if self.runs[i].project_id == project && str_eq(self.runs[i].operation_id.as_str(), operation) {
                return Some(i);
            }
            i += 1;
        }
        None
    }

    /// The run of the project under the operation identifier, if one is in progress.
    pub fn find(&self, project: ProjectId, operation: &str) -> (r: Option<&PipelineRun>)
        requires
            self.wf(),
        ensures
            match r {
                Some(run) => run_is(*run, project, operation@) && self@.contains(*run),
                None => !has_run(self@, project, operation@),
            },
    {
        match self.position(project, operation) {
            Some(i) => Some(&self.runs[i]),
            None => None,
        }
    }

    /// Registers a run, unless its project already has one under its operation identifier.
    pub fn register(&mut self, run: PipelineRun) -> (r: Result<(), AppError>)
        requires
            old(self).wf(),
        ensures
            final(self).wf(),
            !has_run(old(self)@, run.project_id, run.operation_id@) ==> r is Ok && final(self)@ == old(self)@.push(run),
            has_run(old(self)@, run.project_id, run.operation_id@) ==> refused(
                r,
                ("operation_conflict"@, "A Pipeline operation already uses this operation_id."@),
            ) && final(self)@ == old(self)@,
    {
        if self.position(run.project_id, run.operation_id.as_str()).is_some() {
            return Err(AppError::new("operation_conflict", "A Pipeline operation already uses this operation_id."));
        }
        let ghost before = self@;
        self.runs.push(run);
        assert forall|i: int, j: int| 0 <= i < j < self@.len() implies !run_is(
            #[trigger] self@[i],
            #[trigger] self@[j].project_id,
            self@[j].operation_id@,
        ) by {
            if j == before.len() {
                assert(self@[i] == before[i]);
                if run_is(before[i], self@[j].project_id, self@[j].operation_id@) {
                    assert(has_run(before, run.project_id, run.operation_id@));
                }
            }
        }
        Ok(())
    }

    /// Forgets the run of the project under the operation identifier, if any.
    pub fn remove(&mut self, project: ProjectId, operation: &str)
        requires
            old(self).wf(),
        ensures
            final(self).wf(),
            !has_run(final(self)@, project, operation@),
            forall|run: PipelineRun| !run_is(run, project, operation@) ==> (
                old(self)@.contains(run) <==> final(self)@.contains(run)),
    {
        match self.position(project, operation) {
            Some(i) => {
                let ghost before = self@;
                self.runs.remove(i);
                assert(self@ == before.remove(i as int));
                assert forall|k: int| 0 <= k < self@.len() implies !run_is(#[trigger] self@[k], project, operation@) by {
                    if k < i {
                        assert(self@[k] == before[k]);
                        assert(!run_is(before[k], before[i as int].project_id, before[i as int].operation_id@));
                    } else {
                        assert(self@[k] == before[k + 1]);
                        assert(!run_is(before[k + 1], before[i as int].project_id, before[i as int].operation_id@) || k + 1 == i);
                    }
                }
                assert forall|run: PipelineRun| !run_is(run, project, operation@) implies (
                    before.contains(run) <==> self@.contains(run)) by {
                    if before.contains(run) {
                        let k = choose|k: int| 0 <= k < before.len() && before[k] == run;
                        assert(k != i);
                        if k < i {
                            assert(self@[k] == run);
                        } else {
                            assert(self@[k - 1] == run);
                        }
                    }
                    if self@.contains(run) {
                        let k = choose|k: int| 0 <= k < self@.len() && self@[k] == run;
                        if k < i {
                            assert(before[k] == run);
                        } else {
                            assert(before[k + 1] == run);
                        }
                    }
                }
            },
            None => {},
        }
    }
}

/// Only the binding that started an execution may cancel it.
pub fn check_cancel_owner(run: Option<&PipelineRun>, binding: Option<&str>) -> (r: Result<(), AppError>)
    ensures
        run is None ==> refused(r, ("operation_not_found"@, "No active Pipeline operation has this ID."@)),
        run matches Some(x) ==> ((binding matches Some(b) && b@ == x.initiating_binding_id@) ==> r is Ok),
        run matches Some(x) ==> (!(binding matches Some(b) && b@ == x.initiating_binding_id@) ==> refused(
            r,
            ("operation_not_owner"@, "Only the binding that started this Pipeline operation may cancel it."@),
        )),
{
    let run = match run {
        Some(run) => run,
        None => return Err(AppError::new("operation_not_found", "No active Pipeline operation has this ID.")),
    };
    let owner = match binding {
        Some(b) => str_eq(b, run.initiating_binding_id.as_str()),
        None => false,
    };
    if owner {
        Ok(())
    } else {
        Err(AppError::new("operation_not_owner", "Only the binding that started this Pipeline operation may cancel it."))
    }
}

/// While an execution is in progress, no other execution of its project
/// can take its operation identifier: registering a second run under the
/// same project and identifier is refused.
pub proof fn operation_ids_are_exclusive(runs: Seq<PipelineRun>, first: PipelineRun, second: PipelineRun)
    requires
        second.project_id == first.project_id,
        second.operation_id@ == first.operation_id@,
    ensures
        has_run(runs.push(first), second.project_id, second.operation_id@),
{
    assert(runs.push(first)[runs.len() as int] == first);
}

} // verus!

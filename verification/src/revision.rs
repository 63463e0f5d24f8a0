//! Append-only revision records; command orchestration lives in the kernel.
use vstd::prelude::*;
use crate::ids::{OperationId, ProjectId, RevisionId};

verus! {

/// What one revision changed.
#[derive(Clone, Debug, PartialEq, Eq)]
pub struct ChangeSetSummary {
    pub operation: String,
    pub affected_count: u64,
}

#[derive(Clone, Copy, Debug, PartialEq, Eq, Structural)]
pub enum RevisionState {
    Complete,
}

/// One committed revision of a project.
#[derive(Clone, Debug, PartialEq, Eq)]
pub struct Revision {
    pub revision_id: RevisionId,
    pub project_id: ProjectId,
    pub parent_revision_id: Option<RevisionId>,
    pub operation_id: OperationId,
    pub change_set: ChangeSetSummary,
    pub author_label: String,
    pub created_at: String,
    pub summary: String,
    pub state: RevisionState,
}

} // verus!

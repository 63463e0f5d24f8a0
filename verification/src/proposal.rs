//! The lifecycle of a replace proposal: previewed as pending, applied only by
//! native approval against the revision it was previewed on, rejected while
//! pending, and reconciled after a restart with the revisions that committed.
use vstd::prelude::*;
use crate::application::{refused, AppError};
use crate::ids::{decimal, RevisionId};
use crate::host::{check_retry, retry_answer, CachedReply};
use crate::registry::BoundedMap;
use crate::strings::{append_str, str_eq};

verus! {

#[derive(Clone, Copy, Debug, PartialEq, Eq, Structural)]
pub enum ProposalStatus {
    Pending,
    Applying,
    Approved,
    Rejected,
}

/// What the host's journal keeps of a replace proposal.
#[derive(Clone, Debug, PartialEq, Eq)]
pub struct ProposalRecord {
    pub proposal_id: String,
    /// The operation identifier the canonical replacement commits under.
    pub canonical_operation_id: String,
    pub status: ProposalStatus,
    /// The revision the replacement was previewed against.
    pub base_revision_id: RevisionId,
    pub applied_revision_id: Option<String>,
    pub applied_operation_id: Option<String>,
}

/// The first position of a proposal with the given identifier.
pub open spec fn proposal_index(ps: Seq<ProposalRecord>, id: Seq<char>) -> Option<int>
    decreases ps.len(),
{
    if ps.len() == 0 {
        None
    } else if ps[0].proposal_id@ == id {
        Some(0)
    } else {
        match proposal_index(ps.drop_first(), id) {
            Some(i) => Some(i + 1),
            None => None,
        }
    }
}

pub fn find_proposal(ps: &Vec<ProposalRecord>, id: &str) -> (r: Option<usize>)
    ensures
        match proposal_index(ps@, id@) {
            Some(i) => (r matches Some(j) && j as int == i) && 0 <= i < ps@.len(),
            None => r is None,
        },
{
    let mut i: usize = 0;
    assert(ps@.skip(0) =~= ps@);
    while i < ps.len()
        invariant
            0 <= i <= ps@.len(),
            match proposal_index(ps@, id@) {
                Some(k) => match proposal_index(ps@.skip(i as int), id@) {
                    Some(j) => k == j + i,
                    None => false,
                },
                None => proposal_index(ps@.skip(i as int), id@) is None,
            },
        decreases ps@.len() - i,
    {
        assert(ps@.skip(i as int).drop_first() =~= ps@.skip(i as int + 1));
        assert(ps@.skip(i as int)[0] == ps@[i as int]);
        if str_eq(ps[i].proposal_id.as_str(), id) {
            return Some(i);
        }
        i += 1;
    }
    None
}

/// How a replace preview request is answered before anything is previewed.
/// `claims` remembers, per request key, the call's fingerprint and the
/// proposal it produced. A new request previews (`Ok(None)`); a retried one
/// answers with the position of its proposal, and is refused when it comes
/// with another call, or when its proposal is gone.
pub fn preview_replay(
    claims: &BoundedMap<CachedReply<String>>,
    key: &str,
    fingerprint: &str,
    proposals: &Vec<ProposalRecord>,
) -> (r: Result<Option<usize>, AppError>)
    requires
        claims.wf(),
    ensures
        match retry_answer(claims.map(), key@, fingerprint@) {
            None => refused(r, ("request_id_conflict"@, "A request ID may only be retried with identical method, binding, and parameters."@)),
            Some(None) => r matches Ok(None),
            Some(Some(id)) => match proposal_index(proposals@, id@) {
                Some(i) => r matches Ok(Some(j)) && j as int == i,
                None => refused(r, ("host_inconsistent"@, "A completed preview request has no proposal record."@)),
            },
        },
{
    let claimed = match check_retry(claims, key, fingerprint) {
        Ok(c) => c,
        Err(e) => return Err(e),
    };
    match claimed {
        None => Ok(None),
        Some(id) => match find_proposal(proposals, id.as_str()) {
            Some(i) => Ok(Some(i)),
            None => Err(AppError::new("host_inconsistent", "A completed preview request has no proposal record.")),
        },
    }
}

/// What an approval does with a proposal.
#[derive(Clone, Copy, Debug, PartialEq, Eq, Structural)]
pub enum ApprovalStep {
    /// The proposal is already approved: answer it again, unchanged.
    AlreadyApproved,
    /// Mark the proposal applying and apply the replacement.
    Apply,
}

/// The refusal an approval meets, if any.
pub open spec fn approval_problem(status: ProposalStatus, base: RevisionId, current: RevisionId) -> Option<(Seq<char>, Seq<char>)> {
    if status == ProposalStatus::Approved {
        None
    } else if status != ProposalStatus::Pending {
        Some(("proposal_not_pending"@, "Only a pending proposal can be approved."@))
    } else if base != current {
        Some(("stale_revision"@, "The proposal was previewed against an earlier revision."@))
    } else {
        None
    }
}

/// A native write makes the pending proposals previewed before it stale: a
/// new command admitted at the current revision commits at the next one,
/// and approving a pending proposal previewed at the earlier revision is
/// then refused as stale.
pub proof fn native_write_makes_proposals_stale(previewed_at: RevisionId, committed: RevisionId)
    requires
        committed.spec_value() == previewed_at.spec_value() + 1,
    ensures
        approval_problem(ProposalStatus::Pending, previewed_at, committed)
            == Some(("stale_revision"@, "The proposal was previewed against an earlier revision."@)),
{
    assert(previewed_at != committed);
}

/// Decides an approval: an approved proposal is answered again, only a
/// pending proposal previewed against the current revision is applied.
pub fn approval_step(p: &ProposalRecord, current_revision: RevisionId) -> (r: Result<ApprovalStep, AppError>)
    ensures
        match approval_problem(p.status, p.base_revision_id, current_revision) {
            Some(p) => refused(r, p),
            None => r == Ok::<ApprovalStep, AppError>(
                if p.status == ProposalStatus::Approved { ApprovalStep::AlreadyApproved } else { ApprovalStep::Apply },
            ),
        },
{
    match p.status {
        ProposalStatus::Approved => Ok(ApprovalStep::AlreadyApproved),
        ProposalStatus::Pending => {
            if p.base_revision_id != current_revision {
                Err(AppError::new("stale_revision", "The proposal was previewed against an earlier revision."))
            } else {
                Ok(ApprovalStep::Apply)
            }
        },
        _ => Err(AppError::new("proposal_not_pending", "Only a pending proposal can be approved.")),
    }
}

/// The proposals with the one at `index` given another status, all else unchanged.
pub open spec fn with_status(ps: Seq<ProposalRecord>, index: int, status: ProposalStatus) -> Seq<ProposalRecord> {
    ps.update(index, ProposalRecord { status, ..ps[index] })
}

fn clone_text(o: &Option<String>) -> (r: Option<String>)
    ensures
        r == *o,
{
    match o {
        Some(t) => Some(t.clone()),
        None => None,
    }
}

fn with_fields(p: &ProposalRecord, status: ProposalStatus, applied_revision_id: Option<String>, applied_operation_id: Option<String>) -> (r: ProposalRecord)
    ensures
        r == (ProposalRecord { status, applied_revision_id, applied_operation_id, ..*p }),
{
    ProposalRecord {
        proposal_id: p.proposal_id.clone(),
        canonical_operation_id: p.canonical_operation_id.clone(),
        status,
        base_revision_id: p.base_revision_id,
        applied_revision_id,
        applied_operation_id,
    }
}

fn set_status(ps: &mut Vec<ProposalRecord>, index: usize, status: ProposalStatus)
    requires
        index < old(ps)@.len(),
    ensures
        final(ps)@ == with_status(old(ps)@, index as int, status),
{
    let p = with_fields(&ps[index], status, clone_text(&ps[index].applied_revision_id), clone_text(&ps[index].applied_operation_id));
    ps.set(index, p);
}

/// Marks an approved proposal as applying, before the replacement is applied.
pub fn begin_apply(ps: &mut Vec<ProposalRecord>, index: usize)
    requires
        index < old(ps)@.len(),
    ensures
        final(ps)@ == with_status(old(ps)@, index as int, ProposalStatus::Applying),
{
    set_status(ps, index, ProposalStatus::Applying);
}

/// Returns a proposal whose replacement failed to apply to pending.
pub fn abort_apply(ps: &mut Vec<ProposalRecord>, index: usize)
    requires
        index < old(ps)@.len(),
    ensures
        final(ps)@ == with_status(old(ps)@, index as int, ProposalStatus::Pending),
{
    set_status(ps, index, ProposalStatus::Pending);
}

/// A replacement that fails to apply leaves the proposals as they were
/// before it began: marking a pending proposal as applying and then
/// aborting returns exactly the earlier proposals.
pub proof fn aborted_apply_restores_proposals(ps: Seq<ProposalRecord>, index: int)
    requires
        0 <= index < ps.len(),
        ps[index].status == ProposalStatus::Pending,
    ensures
        with_status(with_status(ps, index, ProposalStatus::Applying), index, ProposalStatus::Pending) == ps,
{
    assert(with_status(with_status(ps, index, ProposalStatus::Applying), index, ProposalStatus::Pending) =~= ps);
}

/// The proposal records that it was applied at `revision` under operation `op`.
pub open spec fn applied_at(p: ProposalRecord, revision: RevisionId, op: Seq<char>) -> bool {
    &&& p.applied_revision_id matches Some(t) && t@ == decimal(revision.spec_value() as nat)
    &&& p.applied_operation_id matches Some(o) && o@ == op
}

/// Records that a proposal's replacement committed at `revision`.
pub fn finish_apply(ps: &mut Vec<ProposalRecord>, index: usize, revision: RevisionId)
    requires
        index < old(ps)@.len(),
    ensures
        final(ps)@.len() == old(ps)@.len(),
        forall|i: int| 0 <= i < old(ps)@.len() && i != index ==> #[trigger] final(ps)@[i] == old(ps)@[i],
        ({
            let p = final(ps)@[index as int];
            let q = old(ps)@[index as int];
            &&& p.proposal_id == q.proposal_id
            &&& p.canonical_operation_id == q.canonical_operation_id
            &&& p.base_revision_id == q.base_revision_id
            &&& p.status == ProposalStatus::Approved
            &&& applied_at(p, revision, q.canonical_operation_id@)
        }),
{
    let op = ps[index].canonical_operation_id.clone();
    let p = with_fields(&ps[index], ProposalStatus::Approved, Some(revision.text()), Some(op));
    ps.set(index, p);
}

/// An approval that is replayed once its proposal was applied applies
/// nothing again and creates no revision: whatever the current revision,
/// it meets no refusal, so `approval_step` answers it as already approved,
/// and the proposal still names the revision it was applied at.
pub proof fn replayed_approval_applies_nothing(p: ProposalRecord, applied: RevisionId, current: RevisionId)
    requires
        p.status == ProposalStatus::Approved,
        applied_at(p, applied, p.canonical_operation_id@),
    ensures
        approval_problem(p.status, p.base_revision_id, current) is None,
{
}

/// Rejects a pending proposal; a proposal in any other state is left as it is.
pub fn reject(ps: &mut Vec<ProposalRecord>, index: usize)
    requires
        index < old(ps)@.len(),
    ensures
        old(ps)@[index as int].status == ProposalStatus::Pending ==> final(ps)@ == with_status(
            old(ps)@,
            index as int,
            ProposalStatus::Rejected,
        ),
        old(ps)@[index as int].status != ProposalStatus::Pending ==> final(ps)@ == old(ps)@,
{
    if ps[index].status == ProposalStatus::Pending {
        set_status(ps, index, ProposalStatus::Rejected);
    }
}

/// The revision a committed operation produced, by the first revision recorded under it.
pub open spec fn committed_revision(revisions: Seq<(String, RevisionId)>, operation_id: Seq<char>) -> Option<RevisionId>
    decreases revisions.len(),
{
    if revisions.len() == 0 {
        None
    } else if revisions[0].0@ == operation_id {
        Some(revisions[0].1)
    } else {
        committed_revision(revisions.drop_first(), operation_id)
    }
}

fn find_committed(revisions: &Vec<(String, RevisionId)>, operation_id: &str) -> (r: Option<RevisionId>)
    ensures
        r == committed_revision(revisions@, operation_id@),
{
    let mut i: usize = 0;
    assert(revisions@.skip(0) =~= revisions@);
    while i < revisions.len()
        invariant
            0 <= i <= revisions@.len(),
            committed_revision(revisions@.skip(i as int), operation_id@) == committed_revision(revisions@, operation_id@),
        decreases revisions@.len() - i,
    {
        assert(revisions@.skip(i as int).drop_first() =~= revisions@.skip(i as int + 1));
        assert(revisions@.skip(i as int)[0] == revisions@[i as int]);
        if str_eq(revisions[i].0.as_str(), operation_id) {
            return Some(revisions[i].1);
        }
        i += 1;
    }
    None
}

/// What reopening a project does to a proposal left applying: approved at
/// the revision its canonical operation committed, else pending again when
/// the project still stands at the revision it was previewed on, else left
/// applying. Other proposals are left as they are.
pub open spec fn reconciled_status(p: ProposalRecord, revisions: Seq<(String, RevisionId)>, current: RevisionId) -> ProposalStatus {
    if p.status != ProposalStatus::Applying {
        p.status
    } else if committed_revision(revisions, p.canonical_operation_id@) is Some {
        ProposalStatus::Approved
    } else if current == p.base_revision_id {
        ProposalStatus::Pending
    } else {
        ProposalStatus::Applying
    }
}

/// Reconciles the proposals left applying with the revisions that committed;
/// answers whether any proposal changed.
pub fn reconcile_applying(ps: &mut Vec<ProposalRecord>, revisions: &Vec<(String, RevisionId)>, current: RevisionId) -> (r: bool)
    ensures
        final(ps)@.len() == old(ps)@.len(),
        forall|i: int| 0 <= i < old(ps)@.len() ==> {
            let p = #[trigger] final(ps)@[i];
            let q = old(ps)@[i];
            &&& p.status == reconciled_status(q, revisions@, current)
            &&& p.proposal_id == q.proposal_id
            &&& p.canonical_operation_id == q.canonical_operation_id
            &&& p.base_revision_id == q.base_revision_id
            &&& (p.status == ProposalStatus::Approved && q.status == ProposalStatus::Applying) ==> applied_at(
                p, committed_revision(revisions@, q.canonical_operation_id@)->0, q.canonical_operation_id@)
            &&& p.status == q.status ==> p == q
        },
        r == exists|i: int| 0 <= i < old(ps)@.len() && #[trigger] reconciled_status(old(ps)@[i], revisions@, current) != old(ps)@[i].status,
{
    let ghost start = ps@;
    let mut changed = false;
    let mut i: usize = 0;
    while i < ps.len()
        invariant
            0 <= i <= ps@.len(),
            ps@.len() == start.len(),
            start == old(ps)@,
            forall|j: int| i <= j < start.len() ==> #[trigger] ps@[j] == start[j],
            forall|j: int| 0 <= j < i ==> {
                let p = #[trigger] ps@[j];
                let q = start[j];
                &&& p.status == reconciled_status(q, revisions@, current)
                &&& p.proposal_id == q.proposal_id
                &&& p.canonical_operation_id == q.canonical_operation_id
                &&& p.base_revision_id == q.base_revision_id
                &&& (p.status == ProposalStatus::Approved && q.status == ProposalStatus::Applying) ==> applied_at(
                    p, committed_revision(revisions@, q.canonical_operation_id@)->0, q.canonical_operation_id@)
                &&& p.status == q.status ==> p == q
            },
            changed == exists|j: int| 0 <= j < i && #[trigger] reconciled_status(start[j], revisions@, current) != start[j].status,
        decreases ps@.len() - i,
    {
        if ps[i].status == ProposalStatus::Applying {
            match find_committed(revisions, ps[i].canonical_operation_id.as_str()) {
                Some(revision) => {
                    finish_apply(ps, i, revision);
                    changed = true;
                },
                None => {
                    if current == ps[i].base_revision_id {
                        set_status(ps, i, ProposalStatus::Pending);
                        changed = true;
                    }
                },
            }
        }
        proof {
            assert(reconciled_status(start[i as int], revisions@, current) != start[i as int].status <==> (
                start[i as int].status == ProposalStatus::Applying && (committed_revision(revisions@, start[i as int].canonical_operation_id@) is Some
                    || current == start[i as int].base_revision_id)));
        }
        i += 1;
    }
    changed
}

/// Refuses a pipeline action to callers other than the trusted native client.
pub fn require_native(trusted_native: bool, action: &str) -> (r: Result<(), AppError>)
    ensures
        trusted_native ==> r is Ok,
        !trusted_native ==> (r matches Err(e) && e.code@ == "native_approval_required"@
            && e.message@ == "Trusted native UI is required to "@ + action@ + "."@),
{
    if trusted_native {
        return Ok(());
    }
    let mut message = "Trusted native UI is required to ".to_owned();
    append_str(&mut message, action);
    append_str(&mut message, ".");
    Err(AppError { code: "native_approval_required".to_owned(), message })
}

/// The refusal an approval of a pipeline method proposal meets, if any: as
/// for a replace proposal, and also the method must still stand at the
/// revision the proposal was reviewed against.
pub open spec fn pipeline_approval_problem(
    status: ProposalStatus,
    base: RevisionId,
    current: RevisionId,
    base_method_revision: u128,
    current_method_revision: u128,
) -> Option<(Seq<char>, Seq<char>)> {
    if status == ProposalStatus::Approved {
        None
    } else if status != ProposalStatus::Pending {
        Some(("proposal_not_pending"@, "Only a pending Pipeline proposal can be approved."@))
    } else if base != current {
        Some(("stale_revision"@, "The Pipeline proposal was reviewed against an earlier project revision."@))
    } else if base_method_revision != current_method_revision {
        Some(("stale_method_revision"@, "The Pipeline method changed after this proposal was reviewed."@))
    } else {
        None
    }
}

/// Decides an approval of a pipeline method proposal.
pub fn pipeline_approval_step(
    status: ProposalStatus,
    base: RevisionId,
    current: RevisionId,
    base_method_revision: u128,
    current_method_revision: u128,
) -> (r: Result<ApprovalStep, AppError>)
    ensures
        match pipeline_approval_problem(status, base, current, base_method_revision, current_method_revision) {
            Some(p) => refused(r, p),
            None => r == Ok::<ApprovalStep, AppError>(
                if status == ProposalStatus::Approved { ApprovalStep::AlreadyApproved } else { ApprovalStep::Apply },
            ),
        },
{
    match status {
        ProposalStatus::Approved => Ok(ApprovalStep::AlreadyApproved),
        ProposalStatus::Pending => {
            if base != current {
                return Err(AppError::new(
                    "stale_revision",
                    "The Pipeline proposal was reviewed against an earlier project revision.",
                ));
            }
            if base_method_revision != current_method_revision {
                return Err(AppError::new(
                    "stale_method_revision",
                    "The Pipeline method changed after this proposal was reviewed.",
                ));
            }
            Ok(ApprovalStep::Apply)
        },
        _ => Err(AppError::new("proposal_not_pending", "Only a pending Pipeline proposal can be approved.")),
    }
}

/// What looking up a proposal's reserved method revision found.
#[derive(Clone, Copy, Debug, PartialEq, Eq, Structural)]
pub enum CommitLookup {
    /// The revision exists; `exact` says whether it is exactly the reviewed update.
    Found { exact: bool },
    /// No such revision was committed.
    Missing,
}

/// What reopening does to a pipeline method proposal that is pending or
/// applying: without a reserved revision, one left applying is pending again;
/// with one, an exact committed revision approves it, and a missing one
/// returns a proposal left applying to pending, keeping the reservation.
/// Other proposals are left as they are. The answer is the status and the
/// approved method revision.
pub open spec fn spec_pipeline_reconcile(
    status: ProposalStatus,
    reserved: Option<u128>,
    approved: Option<u128>,
    lookup: CommitLookup,
) -> (ProposalStatus, Option<u128>) {
    if !(status == ProposalStatus::Pending || status == ProposalStatus::Applying) {
        (status, approved)
    } else {
        match reserved {
            None => (if status == ProposalStatus::Applying { ProposalStatus::Pending } else { status }, approved),
            Some(r) => match lookup {
                CommitLookup::Found { exact } => if exact { (ProposalStatus::Approved, Some(r)) } else { (status, approved) },
                CommitLookup::Missing => (if status == ProposalStatus::Applying { ProposalStatus::Pending } else { status }, approved),
            },
        }
    }
}

pub fn pipeline_reconcile(
    status: ProposalStatus,
    reserved: Option<u128>,
    approved: Option<u128>,
    lookup: CommitLookup,
) -> (r: (ProposalStatus, Option<u128>))
    ensures
        r == spec_pipeline_reconcile(status, reserved, approved, lookup),
{
    if !(status == ProposalStatus::Pending || status == ProposalStatus::Applying) {
        return (status, approved);
    }
    match reserved {
        None => (if status == ProposalStatus::Applying { ProposalStatus::Pending } else { status }, approved),
        Some(r) => match lookup {
            CommitLookup::Found { exact } => if exact { (ProposalStatus::Approved, Some(r)) } else { (status, approved) },
            CommitLookup::Missing => (if status == ProposalStatus::Applying { ProposalStatus::Pending } else { status }, approved),
        },
    }
}

/// Reconciling never moves a proposal backwards from a decision: approved and
/// rejected proposals stay as they are, and a proposal only ever becomes
/// approved under the revision reserved for it.
pub proof fn reconcile_respects_decisions(
    status: ProposalStatus,
    reserved: Option<u128>,
    approved: Option<u128>,
    lookup: CommitLookup,
)
    ensures
        (status == ProposalStatus::Approved || status == ProposalStatus::Rejected) ==> spec_pipeline_reconcile(
            status,
            reserved,
            approved,
            lookup,
        ) == (status, approved),
        spec_pipeline_reconcile(status, reserved, approved, lookup).0 == ProposalStatus::Approved
            && status != ProposalStatus::Approved ==> spec_pipeline_reconcile(status, reserved, approved, lookup).1
            == reserved && reserved is Some,
        spec_pipeline_reconcile(status, reserved, approved, lookup).0 != ProposalStatus::Rejected || status
            == ProposalStatus::Rejected,
{
}

} // verus!

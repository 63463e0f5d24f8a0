//! The host's research boundary: which research call is served, by whom, and
//! the checks a human research judgement passes before it is committed.
use vstd::prelude::*;
use crate::application::{refused, AppError};
use crate::host::{has_prefix, receipt_of, CommandReceipt};
use crate::alignment::Alignment;
use crate::ids::{CommandId, DocumentId, RevisionId, SegmentId};
use crate::order::contains_segment;
use crate::segment::Segment;
use crate::methods::{lookup, research_method, research_table, MethodDescriptor, descriptor_model};
use crate::strings::{append_str, starts_with, str_eq};

verus! {

/// The method a `research.call` envelope forwards to, as its table entry:
/// the name must be given, and the table must list it for other callers
/// than the native UI. `Err` carries the refusal's code and message.
pub open spec fn spec_call_target(method: Option<Seq<char>>) -> Result<(Seq<char>, bool, bool), (Seq<char>, Seq<char>)> {
    match method {
        None => Err(("invalid_request"@, "method required"@)),
        Some(m) => match lookup(research_table(), m) {
            Some(d) if !d.2 => Ok(d),
            _ => Err(("invalid_request"@, "method is not available to Agent or MCP"@)),
        },
    }
}

/// Resolves the method named in a `research.call` envelope.
pub fn call_target(method: Option<&str>) -> (r: Result<MethodDescriptor, AppError>)
    ensures
        match spec_call_target(match method { Some(m) => Some(m@), None => None }) {
            Ok(d) => r matches Ok(x) && descriptor_model(x) == d,
            Err(p) => refused(r, p),
        },
{
    let method = match method {
        Some(m) => m,
        None => return Err(AppError::invalid("method required")),
    };
    match research_method(method) {
        Some(d) => {
            if d.native_only {
                Err(AppError::invalid("method is not available to Agent or MCP"))
            } else {
                Ok(d)
            }
        },
        None => Err(AppError::invalid("method is not available to Agent or MCP")),
    }
}

/// Whether a forwarded research method is served by the pool of snapshot views.
pub fn is_pool_method(method: &str) -> (r: bool)
    ensures
        r == has_prefix(method@, "pool."@),
{
    starts_with(method, "pool.")
}

/// Native-only research methods are refused to other callers, with the
/// message that names what only the desktop user does.
pub fn check_native_research(method: &str, native: bool) -> (r: Result<(), AppError>)
    ensures
        (lookup(research_table(), method@) matches Some(d) && d.2 && !native) ==> refused(
            r,
            ("native_ui_required"@, "功能开关、方法保存和人工研究确认由桌面用户操作"@),
        ),
        !(lookup(research_table(), method@) matches Some(d) && d.2 && !native) ==> r is Ok,
{
    let native_only = match research_method(method) {
        Some(d) => d.native_only,
        None => false,
    };
    if native_only && !native {
        Err(AppError::new("native_ui_required", "功能开关、方法保存和人工研究确认由桌面用户操作"))
    } else {
        Ok(())
    }
}

/// The methods that cancel a run, which only its initiator may call.
pub open spec fn cancels_run(method: Seq<char>) -> bool {
    method == "pipeline.cancel_run"@ || method == "pipeline.cancel_graph_run"@
}

/// A run is cancelled by the native UI, or by the binding that started it.
pub fn check_run_owner(method: &str, native: bool, owner: Option<&str>, binding: Option<&str>) -> (r: Result<(), AppError>)
    ensures
        (!native && cancels_run(method@) && (match (owner, binding) {
            (Some(o), Some(b)) => o@ != b@,
            (None, None) => false,
            _ => true,
        })) ==> refused(r, ("run_owner_mismatch"@, "Only the initiating binding or native UI can cancel this run"@)),
        !(!native && cancels_run(method@) && (match (owner, binding) {
            (Some(o), Some(b)) => o@ != b@,
            (None, None) => false,
            _ => true,
        })) ==> r is Ok,
{
    if native || !(str_eq(method, "pipeline.cancel_run") || str_eq(method, "pipeline.cancel_graph_run")) {
        return Ok(());
    }
    let same = match (owner, binding) {
        (Some(o), Some(b)) => str_eq(o, b),
        (None, None) => true,
        _ => false,
    };
    if same {
        Ok(())
    } else {
        Err(AppError::new("run_owner_mismatch", "Only the initiating binding or native UI can cancel this run"))
    }
}

/// What a research method does once the caller may call it.
#[derive(Clone, Copy, Debug, PartialEq, Eq, Structural)]
pub enum ResearchRoute {
    InstallLocalPlugin,
    RemoveLocalPlugin,
    SlotMigrations,
    Capabilities,
    ListSlots,
    ListOperators,
    ListSchemas,
    GetSchema,
    EnableFeature,
    DisableFeature,
    UpdatePreferences,
    ValidatePlan,
    ListMethods,
    Summary,
    MergeGroups,
    SaveMethod,
    StartGraphRun,
    GetGraphRun,
    CancelGraphRun,
    StartRun,
    ListRuns,
    GetRun,
    CancelRun,
    ReadResult,
    ListArtifacts,
    ReadArtifact,
    Confirm,
}

/// The research handler of each method name; `None` for a name the research
/// boundary does not serve.
pub open spec fn research_route_of(method: Seq<char>) -> Option<ResearchRoute> {
    if method == "plugins.install_local"@ { Some(ResearchRoute::InstallLocalPlugin) }
    else if method == "plugins.remove_local"@ { Some(ResearchRoute::RemoveLocalPlugin) }
    else if method == "slots.migrations"@ { Some(ResearchRoute::SlotMigrations) }
    else if method == "capabilities.get"@ { Some(ResearchRoute::Capabilities) }
    else if method == "slots.list"@ { Some(ResearchRoute::ListSlots) }
    else if method == "operators.list"@ { Some(ResearchRoute::ListOperators) }
    else if method == "schemas.list"@ { Some(ResearchRoute::ListSchemas) }
    else if method == "schemas.get"@ { Some(ResearchRoute::GetSchema) }
    else if method == "features.enable"@ { Some(ResearchRoute::EnableFeature) }
    else if method == "features.retry_prepare"@ { Some(ResearchRoute::EnableFeature) }
    else if method == "features.disable"@ { Some(ResearchRoute::DisableFeature) }
    else if method == "features.cancel_prepare"@ { Some(ResearchRoute::DisableFeature) }
    else if method == "features.update_preferences"@ { Some(ResearchRoute::UpdatePreferences) }
    else if method == "pipeline.validate_plan"@ { Some(ResearchRoute::ValidatePlan) }
    else if method == "pipeline.list_methods_v2"@ { Some(ResearchRoute::ListMethods) }
    else if method == "research.summary"@ { Some(ResearchRoute::Summary) }
    else if method == "research.merge_groups"@ { Some(ResearchRoute::MergeGroups) }
    else if method == "pipeline.save_method_v2"@ { Some(ResearchRoute::SaveMethod) }
    else if method == "pipeline.start"@ { Some(ResearchRoute::StartGraphRun) }
    else if method == "pipeline.get_graph_run"@ { Some(ResearchRoute::GetGraphRun) }
    else if method == "pipeline.cancel_graph_run"@ { Some(ResearchRoute::CancelGraphRun) }
    else if method == "research.start"@ { Some(ResearchRoute::StartRun) }
    else if method == "pipeline.list_runs"@ { Some(ResearchRoute::ListRuns) }
    else if method == "pipeline.get_run"@ { Some(ResearchRoute::GetRun) }
    else if method == "pipeline.cancel_run"@ { Some(ResearchRoute::CancelRun) }
    else if method == "pipeline.read_result"@ { Some(ResearchRoute::ReadResult) }
    else if method == "pipeline.list_artifacts"@ { Some(ResearchRoute::ListArtifacts) }
    else if method == "pipeline.read_artifact"@ { Some(ResearchRoute::ReadArtifact) }
    else if method == "research.confirm"@ { Some(ResearchRoute::Confirm) }
    else { None }
}

/// Chooses the research handler of a method name.
pub fn research_route(method: &str) -> (r: Option<ResearchRoute>)
    ensures
        r == research_route_of(method@),
{
    if str_eq(method, "plugins.install_local") { Some(ResearchRoute::InstallLocalPlugin) }
    else if str_eq(method, "plugins.remove_local") { Some(ResearchRoute::RemoveLocalPlugin) }
    else if str_eq(method, "slots.migrations") { Some(ResearchRoute::SlotMigrations) }
    else if str_eq(method, "capabilities.get") { Some(ResearchRoute::Capabilities) }
    else if str_eq(method, "slots.list") { Some(ResearchRoute::ListSlots) }
    else if str_eq(method, "operators.list") { Some(ResearchRoute::ListOperators) }
    else if str_eq(method, "schemas.list") { Some(ResearchRoute::ListSchemas) }
    else if str_eq(method, "schemas.get") { Some(ResearchRoute::GetSchema) }
    else if str_eq(method, "features.enable") { Some(ResearchRoute::EnableFeature) }
    else if str_eq(method, "features.retry_prepare") { Some(ResearchRoute::EnableFeature) }
    else if str_eq(method, "features.disable") { Some(ResearchRoute::DisableFeature) }
    else if str_eq(method, "features.cancel_prepare") { Some(ResearchRoute::DisableFeature) }
    else if str_eq(method, "features.update_preferences") { Some(ResearchRoute::UpdatePreferences) }
    else if str_eq(method, "pipeline.validate_plan") { Some(ResearchRoute::ValidatePlan) }
    else if str_eq(method, "pipeline.list_methods_v2") { Some(ResearchRoute::ListMethods) }
    else if str_eq(method, "research.summary") { Some(ResearchRoute::Summary) }
    else if str_eq(method, "research.merge_groups") { Some(ResearchRoute::MergeGroups) }
    else if str_eq(method, "pipeline.save_method_v2") { Some(ResearchRoute::SaveMethod) }
    else if str_eq(method, "pipeline.start") { Some(ResearchRoute::StartGraphRun) }
    else if str_eq(method, "pipeline.get_graph_run") { Some(ResearchRoute::GetGraphRun) }
    else if str_eq(method, "pipeline.cancel_graph_run") { Some(ResearchRoute::CancelGraphRun) }
    else if str_eq(method, "research.start") { Some(ResearchRoute::StartRun) }
    else if str_eq(method, "pipeline.list_runs") { Some(ResearchRoute::ListRuns) }
    else if str_eq(method, "pipeline.get_run") { Some(ResearchRoute::GetRun) }
    else if str_eq(method, "pipeline.cancel_run") { Some(ResearchRoute::CancelRun) }
    else if str_eq(method, "pipeline.read_result") { Some(ResearchRoute::ReadResult) }
    else if str_eq(method, "pipeline.list_artifacts") { Some(ResearchRoute::ListArtifacts) }
    else if str_eq(method, "pipeline.read_artifact") { Some(ResearchRoute::ReadArtifact) }
    else if str_eq(method, "research.confirm") { Some(ResearchRoute::Confirm) }
    else { None }
}

impl ResearchRoute {
    /// Whether the handler works on the open project, which the caller's
    /// binding must then be current for. Plugin, schema and feature handlers
    /// work on the device alone.
    pub open spec fn spec_needs_project(self) -> bool {
        !(self == ResearchRoute::InstallLocalPlugin || self == ResearchRoute::RemoveLocalPlugin || self == ResearchRoute::SlotMigrations || self == ResearchRoute::Capabilities || self == ResearchRoute::ListSlots || self == ResearchRoute::ListOperators || self == ResearchRoute::ListSchemas || self == ResearchRoute::GetSchema || self == ResearchRoute::EnableFeature || self == ResearchRoute::DisableFeature || self == ResearchRoute::UpdatePreferences || self == ResearchRoute::ValidatePlan)
    }

    pub fn needs_project(&self) -> (r: bool)
        ensures
            r == self.spec_needs_project(),
    {
        match self {
            ResearchRoute::InstallLocalPlugin => false,
            ResearchRoute::RemoveLocalPlugin => false,
            ResearchRoute::SlotMigrations => false,
            ResearchRoute::Capabilities => false,
            ResearchRoute::ListSlots => false,
            ResearchRoute::ListOperators => false,
            ResearchRoute::ListSchemas => false,
            ResearchRoute::GetSchema => false,
            ResearchRoute::EnableFeature => false,
            ResearchRoute::DisableFeature => false,
            ResearchRoute::UpdatePreferences => false,
            ResearchRoute::ValidatePlan => false,
            _ => true,
        }
    }
}

/// The refusal of a research method name the boundary does not serve.
pub fn unknown_research_method(method: &str) -> (r: AppError)
    ensures
        r.code@ == "unknown_method"@,
        r.message@ == "Unsupported research method: "@ + method@,
{
    let mut message = "Unsupported research method: ".to_owned();
    append_str(&mut message, method);
    AppError { code: "unknown_method".to_owned(), message }
}

/// What a change of the local plugin packages restarts.
#[derive(Clone, Copy, Debug, PartialEq, Eq, Structural)]
pub struct FeatureRestart {
    /// Cancel the research and graph runs in progress.
    pub cancel_runs: bool,
    /// Disable the research feature.
    pub disable: bool,
    /// Enable it again.
    pub enable: bool,
}

/// After a local package is installed, an enabled feature restarts; after one
/// is removed, the feature is always disabled and runs are cancelled, and it
/// is enabled again only where the user wanted it enabled.
pub fn package_restart(removal: bool, desired_enabled: bool) -> (r: FeatureRestart)
    ensures
        !removal ==> r == (FeatureRestart { cancel_runs: desired_enabled, disable: desired_enabled, enable: desired_enabled }),
        removal ==> r == (FeatureRestart { cancel_runs: true, disable: true, enable: desired_enabled }),
{
    if removal {
        FeatureRestart { cancel_runs: true, disable: true, enable: desired_enabled }
    } else {
        FeatureRestart { cancel_runs: desired_enabled, disable: desired_enabled, enable: desired_enabled }
    }
}

/// A UTF-8 byte range of a segment's text.
#[derive(Clone, Copy, Debug, PartialEq, Eq, Structural)]
pub struct ResearchRange {
    pub segment_id: SegmentId,
    pub start_utf8: u64,
    pub end_utf8: u64,
}

/// Every range lies in one of the occurrence's aligned target segments.
pub open spec fn ranges_within(ranges: Seq<ResearchRange>, targets: Seq<SegmentId>) -> bool {
    forall|i: int| 0 <= i < ranges.len() ==> targets.contains(#[trigger] ranges[i].segment_id)
}

/// Refuses a judgement that marks text outside the occurrence's aligned targets.
pub fn check_target_ranges(ranges: &Vec<ResearchRange>, targets: &Vec<SegmentId>) -> (r: Result<(), AppError>)
    ensures
        ranges_within(ranges@, targets@) ==> r is Ok,
        !ranges_within(ranges@, targets@) ==> refused(
            r,
            ("invalid_request"@, "target range is outside this occurrence's aligned context"@),
        ),
{
    let mut i: usize = 0;
    while i < ranges.len()
        invariant
            0 <= i <= ranges@.len(),
            forall|j: int| 0 <= j < i ==> targets@.contains(#[trigger] ranges@[j].segment_id),
        decreases ranges@.len() - i,
    {
        if !contains_segment(targets, ranges[i].segment_id) {
            return Err(AppError::invalid("target range is outside this occurrence's aligned context"));
        }
        i += 1;
    }
    Ok(())
}

/// A human judgement of a research occurrence.
#[derive(Clone, Debug)]
pub struct ResearchJudgement {
    /// The occurrence was left untranslated.
    pub omission: bool,
    pub group_name: String,
    pub strategy: String,
    pub target_ranges: Vec<ResearchRange>,
}

/// The judgement recorded for a confirmation: an omission goes to the group
/// `省译` and marks no target text; any other judgement keeps the group and
/// ranges it was given. A missing group or strategy is empty.
pub fn judgement(omission: bool, group_name: Option<&str>, strategy: Option<&str>, ranges: Vec<ResearchRange>) -> (r: ResearchJudgement)
    ensures
        r.omission == omission,
        omission ==> r.group_name@ == "省译"@ && r.target_ranges@.len() == 0,
        !omission ==> r.group_name@ == (match group_name { Some(g) => g@, None => Seq::<char>::empty() }),
        !omission ==> r.target_ranges@ == ranges@,
        r.strategy@ == (match strategy { Some(s) => s@, None => Seq::<char>::empty() }),
{
    let strategy = match strategy {
        Some(s) => s.to_owned(),
        None => String::new(),
    };
    if omission {
        ResearchJudgement { omission, group_name: "省译".to_owned(), strategy, target_ranges: Vec::new() }
    } else {
        let group_name = match group_name {
            Some(g) => g.to_owned(),
            None => String::new(),
        };
        ResearchJudgement { omission, group_name, strategy, target_ranges: ranges }
    }
}

/// The segment belongs to the given document.
pub open spec fn in_document(segments: Seq<Segment>, document: DocumentId, id: SegmentId) -> bool {
    exists|k: int| 0 <= k < segments.len() && (#[trigger] segments[k]).segment_id == id && segments[k].document_id == document
}

/// An alignment relates the source segment to the primary target document:
/// its sources hold the segment and its first target lies in that document.
pub open spec fn relates(a: Alignment, segments: Seq<Segment>, primary: DocumentId, source: SegmentId) -> bool {
    &&& a.source_segment_ids@.contains(source)
    &&& a.target_segment_ids@.len() > 0
    &&& in_document(segments, primary, a.target_segment_ids@[0])
}

/// `t` is a target of one of the first `n` alignments that relate the source segment.
pub open spec fn aligned_within(
    alignments: Seq<Alignment>,
    n: int,
    segments: Seq<Segment>,
    primary: DocumentId,
    source: SegmentId,
    t: SegmentId,
) -> bool {
    exists|i: int| 0 <= i < n && relates(#[trigger] alignments[i], segments, primary, source)
        && alignments[i].target_segment_ids@.contains(t)
}

fn in_document_exec(segments: &Vec<Segment>, document: DocumentId, id: SegmentId) -> (r: bool)
    ensures
        r == in_document(segments@, document, id),
{
    let mut k: usize = 0;
    while k < segments.len()
        invariant
            0 <= k <= segments@.len(),
            forall|j: int| 0 <= j < k ==> !((#[trigger] segments@[j]).segment_id == id && segments@[j].document_id == document),
        decreases segments@.len() - k,
    {
        if segments[k].segment_id == id && segments[k].document_id == document {
            return true;
        }
        k += 1;
    }
    false
}

/// The target segments the source segment is currently aligned to in the
/// primary target document.
pub fn current_targets(alignments: &Vec<Alignment>, segments: &Vec<Segment>, primary: DocumentId, source: SegmentId) -> (r: Vec<SegmentId>)
    ensures
        forall|t: SegmentId| r@.contains(t) <==> aligned_within(alignments@, alignments@.len() as int, segments@, primary, source, t),
{
    let mut out: Vec<SegmentId> = Vec::new();
    let mut i: usize = 0;
    while i < alignments.len()
        invariant
            0 <= i <= alignments@.len(),
            forall|t: SegmentId| out@.contains(t) <==> aligned_within(alignments@, i as int, segments@, primary, source, t),
        decreases alignments@.len() - i,
    {
        let a = &alignments[i];
        let relates_now = contains_segment(&a.source_segment_ids, source) && a.target_segment_ids.len() > 0
            && in_document_exec(segments, primary, a.target_segment_ids[0]);
        let ghost before = out@;
        assert(forall|t: SegmentId| before.contains(t) <==> aligned_within(alignments@, i as int, segments@, primary, source, t));
        if relates_now {
            let mut k: usize = 0;
            while k < a.target_segment_ids.len()
                invariant
                    0 <= k <= a.target_segment_ids@.len(),
                    *a == alignments@[i as int],
                    out@ == before + a.target_segment_ids@.take(k as int),
                decreases a.target_segment_ids@.len() - k,
            {
                out.push(a.target_segment_ids[k]);
                assert(a.target_segment_ids@.take(k as int + 1) == a.target_segment_ids@.take(k as int).push(a.target_segment_ids@[k as int]));
                k += 1;
            }
            assert(a.target_segment_ids@.take(a.target_segment_ids@.len() as int) == a.target_segment_ids@);
        }
        assert(relates_now == relates(alignments@[i as int], segments@, primary, source));
        assert(relates_now ==> out@ == before + alignments@[i as int].target_segment_ids@);
        assert(!relates_now ==> out@ == before);
        assert forall|t: SegmentId| out@.contains(t) <==> aligned_within(alignments@, i as int + 1, segments@, primary, source, t) by {
            let ts = alignments@[i as int].target_segment_ids@;
            if out@.contains(t) {
                let p = choose|p: int| 0 <= p < out@.len() && out@[p] == t;
                if p < before.len() {
                    assert(before[p] == t);
                    assert(before.contains(t));
                    assert(aligned_within(alignments@, i as int, segments@, primary, source, t));
                    let j = choose|j: int| 0 <= j < i && relates(#[trigger] alignments@[j], segments@, primary, source)
                        && alignments@[j].target_segment_ids@.contains(t);
                    assert(0 <= j < i as int + 1);
                } else {
                    assert(relates_now);
                    assert(ts[p - before.len()] == t);
                    assert(ts.contains(t));
                    assert(relates(alignments@[i as int], segments@, primary, source) && alignments@[i as int].target_segment_ids@.contains(t));
                }
            }
            if aligned_within(alignments@, i as int + 1, segments@, primary, source, t) {
                let j = choose|j: int| 0 <= j < i + 1 && relates(#[trigger] alignments@[j], segments@, primary, source)
                    && alignments@[j].target_segment_ids@.contains(t);
                if j < i {
                    assert(aligned_within(alignments@, i as int, segments@, primary, source, t));
                    assert(before.contains(t));
                    let p = choose|p: int| 0 <= p < before.len() && before[p] == t;
                    assert(out@[p] == t);
                } else {
                    assert(j == i);
                    assert(relates_now);
                    let p = choose|p: int| 0 <= p < ts.len() && ts[p] == t;
                    assert(out@[before.len() + p] == t);
                }
            }
        }
        i += 1;
    }
    out
}

/// The targets a confirmation was retrieved with are still those the source
/// segment is aligned to: the same set of segments.
pub open spec fn alignment_current(
    expected: Seq<SegmentId>,
    alignments: Seq<Alignment>,
    segments: Seq<Segment>,
    primary: DocumentId,
    source: SegmentId,
) -> bool {
    forall|t: SegmentId| expected.contains(t) <==> aligned_within(alignments, alignments.len() as int, segments, primary, source, t)
}

/// Refuses to confirm a research occurrence whose alignment changed since it
/// was retrieved. A command that was already committed is not checked again:
/// its replay answers with what it committed.
pub fn check_alignment_current(
    receipts: &Vec<CommandReceipt>,
    command_id: CommandId,
    expected: &Vec<SegmentId>,
    alignments: &Vec<Alignment>,
    segments: &Vec<Segment>,
    primary: DocumentId,
    source: SegmentId,
) -> (r: Result<(), AppError>)
    ensures
        (receipt_of(receipts@, command_id) is Some || alignment_current(expected@, alignments@, segments@, primary, source)) ==> r is Ok,
        !(receipt_of(receipts@, command_id) is Some || alignment_current(expected@, alignments@, segments@, primary, source)) ==> refused(
            r,
            ("stale_alignment"@, "段落对齐已变化，请重新检索后确认"@),
        ),
{
    let mut i: usize = 0;
    assert(receipts@.skip(0) == receipts@);
    while i < receipts.len()
        invariant
            0 <= i <= receipts@.len(),
            receipt_of(receipts@.skip(i as int), command_id) == receipt_of(receipts@, command_id),
        decreases receipts@.len() - i,
    {
        assert(receipts@.skip(i as int).drop_first() == receipts@.skip(i as int + 1));
        if receipts[i].command_id == command_id {
            return Ok(());
        }
        i += 1;
    }
    assert(receipts@.skip(receipts@.len() as int) =~= Seq::<CommandReceipt>::empty());
    let current = current_targets(alignments, segments, primary, source);
    let mut k: usize = 0;
    while k < expected.len()
        invariant
            0 <= k <= expected@.len(),
            forall|j: int| 0 <= j < k ==> current@.contains(#[trigger] expected@[j]),
            forall|t: SegmentId| current@.contains(t) <==> aligned_within(alignments@, alignments@.len() as int, segments@, primary, source, t),
            receipt_of(receipts@, command_id) is None,
        decreases expected@.len() - k,
    {
        if !contains_segment(&current, expected[k]) {
            assert(!current@.contains(expected@[k as int]));
            assert(!aligned_within(alignments@, alignments@.len() as int, segments@, primary, source, expected@[k as int]));
            assert(expected@.contains(expected@[k as int]));
            return Err(AppError::new("stale_alignment", "段落对齐已变化，请重新检索后确认"));
        }
        k += 1;
    }
    let mut m: usize = 0;
    while m < current.len()
        invariant
            0 <= m <= current@.len(),
            forall|j: int| 0 <= j < m ==> expected@.contains(#[trigger] current@[j]),
            forall|j: int| 0 <= j < expected@.len() ==> current@.contains(#[trigger] expected@[j]),
            forall|t: SegmentId| current@.contains(t) <==> aligned_within(alignments@, alignments@.len() as int, segments@, primary, source, t),
            receipt_of(receipts@, command_id) is None,
        decreases current@.len() - m,
    {
        if !contains_segment(expected, current[m]) {
            assert(current@.contains(current@[m as int]));
            return Err(AppError::new("stale_alignment", "段落对齐已变化，请重新检索后确认"));
        }
        m += 1;
    }
    assert forall|t: SegmentId| expected@.contains(t) <==> aligned_within(alignments@, alignments@.len() as int, segments@, primary, source, t) by {
        if expected@.contains(t) {
            let j = choose|j: int| 0 <= j < expected@.len() && expected@[j] == t;
            assert(current@.contains(expected@[j]));
        }
        if current@.contains(t) {
            let j = choose|j: int| 0 <= j < current@.len() && current@[j] == t;
            assert(expected@.contains(current@[j]));
        }
    }
    Ok(())
}

/// The revision a research command is based on: for a command already
/// committed, the revision before the one it committed (never below zero);
/// else the project's current revision.
pub open spec fn spec_canonical_base(receipts: Seq<CommandReceipt>, command_id: CommandId, current: RevisionId) -> u64 {
    match receipt_of(receipts, command_id) {
        Some(receipt) => if receipt.committed_revision_id.spec_value() == 0 {
            0
        } else {
            (receipt.committed_revision_id.spec_value() - 1) as u64
        },
        None => current.spec_value(),
    }
}

/// The base revision of a research command envelope.
pub fn canonical_base(receipts: &Vec<CommandReceipt>, command_id: CommandId, current: RevisionId) -> (r: RevisionId)
    ensures
        r.spec_value() == spec_canonical_base(receipts@, command_id, current),
{
    let mut i: usize = 0;
    assert(receipts@.skip(0) == receipts@);
    while i < receipts.len()
        invariant
            0 <= i <= receipts@.len(),
            receipt_of(receipts@.skip(i as int), command_id) == receipt_of(receipts@, command_id),
        decreases receipts@.len() - i,
    {
        assert(receipts@.skip(i as int).drop_first() == receipts@.skip(i as int + 1));
        if receipts[i].command_id == command_id {
            return RevisionId::new(receipts[i].committed_revision_id.value().saturating_sub(1));
        }
        i += 1;
    }
    current
}

} // verus!

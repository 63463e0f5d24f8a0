//! The decisions of a research or graph run's lifecycle: what a start
//! request is checked against, how a retried start is answered, and the
//! status a run ends in.
use vstd::prelude::*;
use crate::ids::{DocumentId, SegmentId};
use crate::segment::Segment;
use crate::strings::{chars_of, starts_with, str_eq};
use crate::text::{trim, trim_chars};
use crate::transport::{contains_string, views_of};

verus! {

/// The most bytes of a research query.
pub const MAX_QUERY_BYTES: usize = 2048;

/// The largest gap, in segments, a research query may bridge.
pub const MAX_QUERY_GAP: u64 = 10;

/// How many runs of one kind may be active at once.
pub const MAX_ACTIVE_RUNS: usize = 2;

/// The status of a research or graph run.
#[derive(Clone, Copy, Debug, PartialEq, Eq, Structural)]
pub enum RunStatus {
    Queued,
    Running,
    Completed,
    Failed,
    Cancelled,
    /// The application exited while the run was queued or running.
    Interrupted,
}

/// A research query is non-blank, at most 2048 bytes of UTF-8, and bridges
/// gaps of at most ten segments.
pub open spec fn query_acceptable(query: Seq<char>, max_gap: u64) -> bool {
    &&& trim(query).len() > 0
    &&& vstd::utf8::encode_utf8(query).len() <= MAX_QUERY_BYTES
    &&& max_gap <= MAX_QUERY_GAP
}

/// Refuses a research query that is blank, too long or too loose.
pub fn check_research_query(query: &str, max_gap: u64) -> (r: Result<(), String>)
    ensures
        query_acceptable(query@, max_gap) ==> r is Ok,
        !query_acceptable(query@, max_gap) ==> (r matches Err(m) && m@ == "invalid research query; max_gap must be 0–10"@),
{
    let bytes = query.as_bytes();
    let trimmed = trim_chars(&chars_of(query));
    if trimmed.len() == 0 || bytes.len() > MAX_QUERY_BYTES || max_gap > MAX_QUERY_GAP {
        Err("invalid research query; max_gap must be 0–10".to_owned())
    } else {
        Ok(())
    }
}

/// The similarity operator of a research query must be registered for the
/// `text.similarity` slot; `slots` are the slots of the operator the query
/// names, `None` when no such operator is registered.
pub fn check_similarity_operator(slots: Option<&Vec<String>>) -> (r: Result<(), String>)
    ensures
        (slots matches Some(s) && views_of(s@).contains("text.similarity"@)) ==> r is Ok,
        !(slots matches Some(s) && views_of(s@).contains("text.similarity"@)) ==> (
            r matches Err(m) && m@ == "unknown similarity provider"@),
{
    match slots {
        Some(s) => {
            if contains_string(s, "text.similarity") {
                Ok(())
            } else {
                Err("unknown similarity provider".to_owned())
            }
        },
        None => Err("unknown similarity provider".to_owned()),
    }
}

/// The built-in research run takes no custom method: those run as graphs.
pub fn check_builtin_method(method_id: Option<&str>) -> (r: Result<(), String>)
    ensures
        method_id is None ==> r is Ok,
        method_id is Some ==> (r matches Err(m) && m@ == "custom method must be submitted through the v2 graph API"@),
{
    match method_id {
        None => Ok(()),
        Some(_) => Err("custom method must be submitted through the v2 graph API".to_owned()),
    }
}

/// What identifies a start request: its request identifier, the fingerprint
/// of what it asked for, and the binding that sent it.
#[derive(Clone, Debug)]
pub struct RunRequest {
    pub request_id: String,
    pub fingerprint: String,
    pub owner_binding: Option<String>,
}

pub open spec fn opt_view(o: Option<String>) -> Option<Seq<char>> {
    match o {
        Some(s) => Some(s@),
        None => None,
    }
}

/// The first stored run with the request's identifier, if any.
pub open spec fn first_request(runs: Seq<RunRequest>, request_id: Seq<char>) -> Option<int>
    decreases runs.len(),
{
    if runs.len() == 0 {
        None
    } else if runs[0].request_id@ == request_id {
        Some(0)
    } else {
        match first_request(runs.drop_first(), request_id) {
            Some(i) => Some(i + 1),
            None => None,
        }
    }
}

proof fn lemma_first_request_range(runs: Seq<RunRequest>, request_id: Seq<char>)
    ensures
        first_request(runs, request_id) matches Some(i) ==> 0 <= i < runs.len() && runs[i].request_id@ == request_id,
    decreases runs.len(),
{
    if runs.len() > 0 {
        lemma_first_request_range(runs.drop_first(), request_id);
    }
}

/// How a start request is answered given the runs already stored: a new
/// request starts a run (`Ok(None)`); a repeated one answers with the run it
/// started (`Ok(Some(index))`) when it asks for the same thing from the same
/// binding, and is refused otherwise.
pub open spec fn spec_replay(runs: Seq<RunRequest>, request: RunRequest) -> Result<Option<int>, Seq<char>> {
    match first_request(runs, request.request_id@) {
        None => Ok(None),
        Some(i) => if runs[i].fingerprint@ == request.fingerprint@ && opt_view(runs[i].owner_binding) == opt_view(request.owner_binding) {
            Ok(Some(i))
        } else {
            Err("request ID conflict"@)
        },
    }
}

fn same_owner(a: &Option<String>, b: &Option<String>) -> (r: bool)
    ensures
        r == (opt_view(*a) == opt_view(*b)),
{
    match (a, b) {
        (Some(x), Some(y)) => str_eq(x.as_str(), y.as_str()),
        (None, None) => true,
        _ => false,
    }
}

/// Answers a start request against the stored runs.
pub fn replay(runs: &Vec<RunRequest>, request: &RunRequest) -> (r: Result<Option<usize>, String>)
    ensures
        match spec_replay(runs@, *request) {
            Ok(None) => r matches Ok(None),
            Ok(Some(i)) => r matches Ok(Some(j)) && j == i,
            Err(m) => r matches Err(e) && e@ == m,
        },
{
    let mut i: usize = 0;
    proof {
        assert(runs@.skip(0) == runs@);
        lemma_first_request_range(runs@, request.request_id@);
    }
    while i < runs.len()
        invariant
            0 <= i <= runs@.len(),
            forall|j: int| 0 <= j < i ==> (#[trigger] runs@[j]).request_id@ != request.request_id@,
            first_request(runs@.skip(i as int), request.request_id@) == (match first_request(runs@, request.request_id@) {
                Some(k) => Some(k - i),
                None => None::<int>,
            }),
            first_request(runs@, request.request_id@) matches Some(k) ==> k >= i,
        decreases runs@.len() - i,
    {
        assert(runs@.skip(i as int).drop_first() == runs@.skip(i as int + 1));
        assert(runs@.skip(i as int)[0] == runs@[i as int]);
        proof {
            lemma_first_request_range(runs@.skip(i as int), request.request_id@);
        }
        if str_eq(runs[i].request_id.as_str(), request.request_id.as_str()) {
            if str_eq(runs[i].fingerprint.as_str(), request.fingerprint.as_str())
                && same_owner(&runs[i].owner_binding, &request.owner_binding) {
                return Ok(Some(i));
            }
            return Err("request ID conflict".to_owned());
        }
        i += 1;
    }
    proof {
        assert(runs@.skip(runs@.len() as int).len() == 0);
    }
    Ok(None)
}

/// A start request is replayed once its run is stored: the same request
/// answers with that run, and a request under the same identifier that asks
/// for something else, or comes from another binding, is refused.
pub proof fn retried_start_replays_its_run(runs: Seq<RunRequest>, stored: RunRequest, retry: RunRequest)
    requires
        first_request(runs, stored.request_id@) is None,
        retry.request_id@ == stored.request_id@,
    ensures
        spec_replay(runs.push(stored), retry) == (
            if retry.fingerprint@ == stored.fingerprint@ && opt_view(retry.owner_binding) == opt_view(stored.owner_binding) {
                Ok::<Option<int>, Seq<char>>(Some(runs.len() as int))
            } else {
                Err::<Option<int>, Seq<char>>("request ID conflict"@)
            }),
{
    lemma_first_request_after(runs, stored, retry.request_id@);
}

proof fn lemma_first_request_after(runs: Seq<RunRequest>, stored: RunRequest, id: Seq<char>)
    requires
        first_request(runs, id) is None,
        stored.request_id@ == id,
    ensures
        first_request(runs.push(stored), id) == Some(runs.len() as int),
    decreases runs.len(),
{
    if runs.len() > 0 {
        assert(runs.push(stored).drop_first() == runs.drop_first().push(stored));
        lemma_first_request_after(runs.drop_first(), stored, id);
    }
}

/// At most two runs of a kind are active; a further research run is refused
/// with one message, a further graph run with another.
pub fn check_run_capacity(active: usize, graph: bool) -> (r: Result<(), String>)
    ensures
        active < MAX_ACTIVE_RUNS ==> r is Ok,
        active >= MAX_ACTIVE_RUNS && graph ==> (r matches Err(m) && m@ == "graph queue full"@),
        active >= MAX_ACTIVE_RUNS && !graph ==> (r matches Err(m) && m@ == "two research runs are already active"@),
{
    if active < MAX_ACTIVE_RUNS {
        Ok(())
    } else if graph {
        Err("graph queue full".to_owned())
    } else {
        Err("two research runs are already active".to_owned())
    }
}

/// How many of the first `n` segments belong to the document.
pub open spec fn count_in_document(segments: Seq<Segment>, document: DocumentId, n: int) -> int
    decreases n,
{
    if n <= 0 || n > segments.len() {
        0
    } else {
        count_in_document(segments, document, n - 1) + if segments[n - 1].document_id == document { 1int } else { 0int }
    }
}

/// The size of a research run: the segments of the source document.
pub fn run_total(segments: &Vec<Segment>, source_document: DocumentId) -> (r: u64)
    requires
        segments@.len() <= u64::MAX,
    ensures
        r == count_in_document(segments@, source_document, segments@.len() as int),
{
    let mut count: u64 = 0;
    let mut i: usize = 0;
    while i < segments.len()
        invariant
            0 <= i <= segments@.len() <= u64::MAX,
            count == count_in_document(segments@, source_document, i as int),
            count <= i,
        decreases segments@.len() - i,
    {
        if segments[i].document_id == source_document {
            count = count + 1;
        }
        i += 1;
    }
    count
}

/// The operators a run records as its bindings: all but the host's input operators.
pub open spec fn recorded_operator(operator_id: Seq<char>) -> bool {
    !(operator_id.len() >= 11 && operator_id.take(11) == "host.input."@)
}

/// The positions of the operators a research run records, in order.
pub fn recorded_operators(operator_ids: &Vec<String>) -> (r: Vec<usize>)
    ensures
        forall|k: int| 0 <= k < r@.len() ==> {
            let i = #[trigger] r@[k] as int;
            0 <= i < operator_ids@.len() && recorded_operator(operator_ids@[i]@)
        },
        forall|k: int, l: int| 0 <= k < l < r@.len() ==> r@[k] < r@[l],
        forall|i: int| 0 <= i < operator_ids@.len() && recorded_operator(operator_ids@[i]@) ==> r@.contains(i as usize),
{
    let mut out: Vec<usize> = Vec::new();
    let mut i: usize = 0;
    while i < operator_ids.len()
        invariant
            0 <= i <= operator_ids@.len(),
            forall|k: int| 0 <= k < out@.len() ==> {
                let j = #[trigger] out@[k] as int;
                0 <= j < i && recorded_operator(operator_ids@[j]@)
            },
            forall|k: int, l: int| 0 <= k < l < out@.len() ==> out@[k] < out@[l],
            forall|j: int| 0 <= j < i && recorded_operator(operator_ids@[j]@) ==> out@.contains(j as usize),
        decreases operator_ids@.len() - i,
    {
        let host_input = starts_with(operator_ids[i].as_str(), "host.input.");
        proof {
            reveal_strlit("host.input.");
        }
        let ghost before = out@;
        if !host_input {
            out.push(i);
            assert(out@[out@.len() - 1] == i);
        }
        assert forall|j: int| 0 <= j < i + 1 && recorded_operator(operator_ids@[j]@) implies out@.contains(j as usize) by {
            if j < i {
                let p = choose|p: int| 0 <= p < before.len() && before[p] == j as usize;
                assert(out@[p] == j as usize);
            } else {
                assert(out@[out@.len() - 1] == i);
            }
        }
        i += 1;
    }
    out
}

/// The status a research run ends in: cancelled when it was asked to stop,
/// else completed or failed by its outcome.
pub fn research_end_status(cancelled: bool, succeeded: bool) -> (r: RunStatus)
    ensures
        cancelled ==> r == RunStatus::Cancelled,
        !cancelled && succeeded ==> r == RunStatus::Completed,
        !cancelled && !succeeded ==> r == RunStatus::Failed,
{
    if cancelled {
        RunStatus::Cancelled
    } else if succeeded {
        RunStatus::Completed
    } else {
        RunStatus::Failed
    }
}

/// The stored status of a run as it is read: a run still queued or running
/// that no worker holds any more was interrupted by the application's exit,
/// which a graph run and a research run each report in their own words.
pub fn observed_status(stored: RunStatus, held: bool, graph: bool) -> (r: (RunStatus, Option<&'static str>))
    ensures
        ((stored == RunStatus::Queued || stored == RunStatus::Running) && !held) ==> r.0 == RunStatus::Interrupted,
        ((stored == RunStatus::Queued || stored == RunStatus::Running) && !held && graph) ==> (
            r.1 matches Some(m) && m@ == "Application exited before graph completed"@),
        ((stored == RunStatus::Queued || stored == RunStatus::Running) && !held && !graph) ==> (
            r.1 matches Some(m) && m@ == "应用退出时运行未完成；可重新检索，已确认记录保留"@),
        !((stored == RunStatus::Queued || stored == RunStatus::Running) && !held) ==> (r.0 == stored && r.1 is None),
{
    match stored {
        RunStatus::Queued | RunStatus::Running => {
            if held {
                (stored, None)
            } else if graph {
                (RunStatus::Interrupted, Some("Application exited before graph completed"))
            } else {
                (RunStatus::Interrupted, Some("应用退出时运行未完成；可重新检索，已确认记录保留"))
            }
        },
        _ => (stored, None),
    }
}

} // verus!

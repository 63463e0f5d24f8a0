//! Versioned graph methods and the views a graph reads its inputs from.
use vstd::prelude::*;
use crate::ids::{DocumentId, SegmentId};
use crate::order::SegmentOrder;
use crate::runs::RunStatus;
use crate::segment::Segment;
use crate::strings::{chars_of, starts_with, str_eq};
use crate::text::{trim, trim_chars};

verus! {

/// The most bytes of a method name.
pub const MAX_METHOD_NAME_BYTES: usize = 256;

/// A method is saved under a non-blank name of at most 256 bytes of UTF-8.
pub open spec fn name_acceptable(name: Seq<char>) -> bool {
    trim(name).len() > 0 && vstd::utf8::encode_utf8(name).len() <= MAX_METHOD_NAME_BYTES
}

/// The name a method is saved under.
pub fn check_method_name(name: Option<&str>) -> (r: Result<&str, String>)
    ensures
        (name matches Some(n) && name_acceptable(n@)) ==> r == Ok::<&str, String>(name->0),
        !(name matches Some(n) && name_acceptable(n@)) ==> (r matches Err(m) && m@ == "method name required"@),
{
    match name {
        Some(n) => {
            let trimmed = trim_chars(&chars_of(n));
            if trimmed.len() > 0 && n.as_bytes().len() <= MAX_METHOD_NAME_BYTES {
                Ok(n)
            } else {
                Err("method name required".to_owned())
            }
        },
        None => Err("method name required".to_owned()),
    }
}

/// Saving edits the method's head revision, which the request must name as
/// its base; a new method takes no base. `head` is the revision of the
/// stored head, if the method exists; `base` is the request's base when it
/// gives one (not absent, not null), with its text when it is a string.
pub open spec fn spec_base_problem(head: Option<Seq<char>>, base: Option<Option<Seq<char>>>) -> Option<Seq<char>> {
    match head {
        Some(h) => if base == Some(Some(h)) { None } else { Some("method revision changed; reload before saving"@) },
        None => if base is Some { Some("method does not exist"@) } else { None },
    }
}

pub fn check_method_base(head: Option<&str>, base: Option<Option<&str>>) -> (r: Result<(), String>)
    ensures
        match spec_base_problem(
            match head { Some(h) => Some(h@), None => None },
            match base { Some(Some(b)) => Some(Some(b@)), Some(None) => Some(None), None => None },
        ) {
            None => r is Ok,
            Some(m) => r matches Err(e) && e@ == m,
        },
{
    match head {
        Some(h) => {
            let same = match base {
                Some(Some(b)) => str_eq(b, h),
                _ => false,
            };
            if same {
                Ok(())
            } else {
                Err("method revision changed; reload before saving".to_owned())
            }
        },
        None => {
            if base.is_some() {
                Err("method does not exist".to_owned())
            } else {
                Ok(())
            }
        },
    }
}

/// An input node of the host is published from the snapshot before the
/// graph runs, unless it already names a published handle.
pub fn needs_input_publication(operator_id: &str, has_handle: bool) -> (r: bool)
    ensures
        r == (!has_handle && operator_id@.len() >= 11 && operator_id@.take(11) == "host.input."@),
{
    proof {
        reveal_strlit("host.input.");
    }
    !has_handle && starts_with(operator_id, "host.input.")
}

/// The state of one node of a graph run.
#[derive(Clone, Copy, Debug, PartialEq, Eq, Structural)]
pub enum NodeState {
    Queued,
    Running,
    Completed,
    Failed,
    Cancelled,
}

/// How many of the first `n` nodes completed.
pub open spec fn completed_within(nodes: Seq<NodeState>, n: int) -> int
    decreases n,
{
    if n <= 0 || n > nodes.len() {
        0
    } else {
        completed_within(nodes, n - 1) + if nodes[n - 1] == NodeState::Completed { 1int } else { 0int }
    }
}

/// The progress a graph run reports: how many nodes completed.
pub fn completed_nodes(nodes: &Vec<NodeState>) -> (r: u64)
    requires
        nodes@.len() <= u64::MAX,
    ensures
        r == completed_within(nodes@, nodes@.len() as int),
{
    let mut count: u64 = 0;
    let mut i: usize = 0;
    while i < nodes.len()
        invariant
            0 <= i <= nodes@.len() <= u64::MAX,
            count == completed_within(nodes@, i as int),
            count <= i,
        decreases nodes@.len() - i,
    {
        if nodes[i] == NodeState::Completed {
            count = count + 1;
        }
        i += 1;
    }
    count
}

/// The status a graph run ends in: completed when the graph succeeded, else
/// cancelled when it was asked to stop, else failed.
pub fn graph_end_status(succeeded: bool, cancelled: bool) -> (r: RunStatus)
    ensures
        succeeded ==> r == RunStatus::Completed,
        !succeeded && cancelled ==> r == RunStatus::Cancelled,
        !succeeded && !cancelled ==> r == RunStatus::Failed,
{
    if succeeded {
        RunStatus::Completed
    } else if cancelled {
        RunStatus::Cancelled
    } else {
        RunStatus::Failed
    }
}

/// When a graph run fails, the nodes still running end as it does:
/// cancelled when it was asked to stop, else failed. Other nodes keep their state.
pub fn settle_nodes(nodes: &mut Vec<NodeState>, cancelled: bool)
    ensures
        final(nodes)@.len() == old(nodes)@.len(),
        forall|i: int| 0 <= i < old(nodes)@.len() ==> #[trigger] final(nodes)@[i] == settled(old(nodes)@[i], cancelled),
{
    let mut i: usize = 0;
    while i < nodes.len()
        invariant
            0 <= i <= nodes@.len(),
            nodes@.len() == old(nodes)@.len(),
            forall|j: int| 0 <= j < i ==> #[trigger] nodes@[j] == settled(old(nodes)@[j], cancelled),
            forall|j: int| i <= j < nodes@.len() ==> #[trigger] nodes@[j] == old(nodes)@[j],
        decreases nodes@.len() - i,
    {
        if nodes[i] == NodeState::Running {
            let end_state = if cancelled { NodeState::Cancelled } else { NodeState::Failed };
            nodes.set(i, end_state);
        }
        i += 1;
    }
}

/// The node after a failed graph run settles it.
pub open spec fn settled(node: NodeState, cancelled: bool) -> NodeState {
    if node == NodeState::Running {
        if cancelled { NodeState::Cancelled } else { NodeState::Failed }
    } else {
        node
    }
}

/// Settling the nodes of a failed graph run keeps the progress it reports:
/// as many nodes count as completed as before.
pub proof fn settling_keeps_progress(before: Seq<NodeState>, after: Seq<NodeState>, cancelled: bool, n: int)
    requires
        after.len() == before.len(),
        forall|i: int| 0 <= i < before.len() ==> #[trigger] after[i] == settled(before[i], cancelled),
    ensures
        completed_within(after, n) == completed_within(before, n),
    decreases n,
{
    if n > 0 && n <= before.len() {
        settling_keeps_progress(before, after, cancelled, n - 1);
        assert(after[n - 1] == settled(before[n - 1], cancelled));
    }
}

/// Which document a view of the snapshot reads, by its schema and side.
pub open spec fn spec_view_document(schema: Seq<char>, side: Seq<char>) -> Result<usize, Seq<char>> {
    if !(schema == "SegmentView"@ || schema == "TextView"@) {
        Err("source/target views require SegmentView or TextView; other schemas use typed value inputs"@)
    } else if side == "source"@ {
        Ok(0)
    } else if side == "target"@ {
        Ok(1)
    } else {
        Err("unknown view"@)
    }
}

pub fn view_document(schema: &str, side: &str) -> (r: Result<usize, String>)
    ensures
        match spec_view_document(schema@, side@) {
            Ok(i) => r == Ok::<usize, String>(i),
            Err(m) => r matches Err(e) && e@ == m,
        },
{
    if !(str_eq(schema, "SegmentView") || str_eq(schema, "TextView")) {
        Err("source/target views require SegmentView or TextView; other schemas use typed value inputs".to_owned())
    } else if str_eq(side, "source") {
        Ok(0)
    } else if str_eq(side, "target") {
        Ok(1)
    } else {
        Err("unknown view".to_owned())
    }
}

/// The first order kept for the document.
pub open spec fn order_of(orders: Seq<SegmentOrder>, document: DocumentId) -> Option<int>
    decreases orders.len(),
{
    if orders.len() == 0 {
        None
    } else if orders.last().document_id == document && order_of(orders.drop_last(), document) is None {
        Some(orders.len() - 1)
    } else {
        order_of(orders.drop_last(), document)
    }
}

/// Finds the document's order, which a view reads its segments in.
pub fn find_order(orders: &Vec<SegmentOrder>, document: DocumentId) -> (r: Result<usize, String>)
    ensures
        match order_of(orders@, document) {
            Some(i) => r == Ok::<usize, String>(i as usize),
            None => r matches Err(m) && m@ == "missing segment order"@,
        },
{
    let mut i: usize = 0;
    while i < orders.len()
        invariant
            0 <= i <= orders@.len(),
            order_of(orders@.take(i as int), document) is None,
        decreases orders@.len() - i,
    {
        assert(orders@.take(i as int + 1).drop_last() == orders@.take(i as int));
        if orders[i].document_id == document {
            proof {
                lemma_order_of_prefix(orders@, document, i as int + 1);
            }
            return Ok(i);
        }
        i += 1;
    }
    assert(orders@.take(orders@.len() as int) == orders@);
    Err("missing segment order".to_owned())
}

/// Once a prefix of the orders holds the document's order, so do all the orders.
proof fn lemma_order_of_prefix(orders: Seq<SegmentOrder>, document: DocumentId, n: int)
    requires
        0 <= n <= orders.len(),
        order_of(orders.take(n), document) is Some,
    ensures
        order_of(orders, document) == order_of(orders.take(n), document),
    decreases orders.len() - n,
{
    if n < orders.len() {
        assert(orders.take(n + 1).drop_last() == orders.take(n));
        lemma_order_of_prefix(orders, document, n + 1);
    } else {
        assert(orders.take(n) == orders);
    }
}

/// The last segment with the identifier, as a map built from the segments keeps it.
pub open spec fn segment_by_id(segments: Seq<Segment>, id: SegmentId) -> Option<int>
    decreases segments.len(),
{
    if segments.len() == 0 {
        None
    } else if segments.last().segment_id == id {
        Some(segments.len() - 1)
    } else {
        segment_by_id(segments.drop_last(), id)
    }
}

pub(crate) proof fn lemma_segment_by_id_range(segments: Seq<Segment>, id: SegmentId)
    ensures
        segment_by_id(segments, id) matches Some(i) ==> 0 <= i < segments.len() && segments[i].segment_id == id,
    decreases segments.len(),
{
    if segments.len() > 0 {
        lemma_segment_by_id_range(segments.drop_last(), id);
    }
}

pub(crate) fn find_segment(segments: &Vec<Segment>, id: SegmentId) -> (r: Option<usize>)
    ensures
        match segment_by_id(segments@, id) {
            Some(i) => r matches Some(j) && j as int == i,
            None => r is None,
        },
{
    let mut i: usize = segments.len();
    assert(segments@.take(segments@.len() as int) == segments@);
    while i > 0
        invariant
            0 <= i <= segments@.len(),
            segment_by_id(segments@, id) == segment_by_id(segments@.take(i as int), id),
        decreases i,
    {
        assert(segments@.take(i as int).drop_last() == segments@.take(i as int - 1));
        proof {
            lemma_segment_by_id_range(segments@.take(i as int), id);
        }
        if segments[i - 1].segment_id == id {
            return Some(i - 1);
        }
        i -= 1;
    }
    None
}

/// The segments a view page shows: the order's entries from `cursor`, at
/// most `limit` of them, each as the segment with its identifier; an entry
/// with no such segment is left out.
pub open spec fn view_page(order: Seq<SegmentId>, segments: Seq<Segment>, cursor: int, limit: int) -> Seq<int>
    decreases order.len(),
{
    if order.len() == 0 {
        Seq::empty()
    } else {
        let rest = view_page(order.drop_last(), segments, cursor, limit);
        let p = order.len() - 1;
        if cursor <= p && p < cursor + limit && segment_by_id(segments, order.last()) is Some {
            rest.push(segment_by_id(segments, order.last())->0)
        } else {
            rest
        }
    }
}

pub open spec fn entry_ids(order: SegmentOrder) -> Seq<SegmentId> {
    order.entries@.map_values(|e: crate::order::OrderedSegmentRef| e.segment_id)
}

pub open spec fn as_ints(s: Seq<usize>) -> Seq<int> {
    s.map_values(|i: usize| i as int)
}

/// The positions, among the snapshot's segments, of the segments a view page shows.
pub fn view_segments(order: &SegmentOrder, segments: &Vec<Segment>, cursor: usize, limit: usize) -> (r: Vec<usize>)
    ensures
        as_ints(r@) == view_page(entry_ids(*order), segments@, cursor as int, limit as int),
{
    let mut out: Vec<usize> = Vec::new();
    let mut k: usize = 0;
    let ghost ids = entry_ids(*order);
    while k < order.entries.len()
        invariant
            0 <= k <= order.entries@.len(),
            ids == entry_ids(*order),
            as_ints(out@) == view_page(ids.take(k as int), segments@, cursor as int, limit as int),
        decreases order.entries@.len() - k,
    {
        assert(ids.take(k as int + 1).drop_last() == ids.take(k as int));
        assert(ids.take(k as int + 1).last() == order.entries@[k as int].segment_id);
        let in_window = cursor <= k && (k - cursor) < limit;
        let ghost before = out@;
        if in_window {
            match find_segment(segments, order.entries[k].segment_id) {
                Some(i) => {
                    out.push(i);
                    assert(as_ints(out@) =~= as_ints(before).push(i as int));
                },
                None => {},
            }
        }
        k += 1;
    }
    assert(ids.take(order.entries@.len() as int) == ids);
    out
}

} // verus!

//! How a research run turns the matches of a batch of source segments into
//! occurrences: which aligned passages give their context, which target
//! segments each occurrence shows, and how its alignment coverage is labelled.
use vstd::prelude::*;
use crate::alignment::Alignment;
use crate::graph::{as_ints, find_segment, lemma_segment_by_id_range, segment_by_id};
use crate::ids::{DocumentId, SegmentId};
use crate::order::contains_segment;
use crate::segment::Segment;

verus! {

/// How many source segments a research run searches at once.
pub const RESEARCH_BATCH: usize = 16;

/// The search a research query runs, as its slot and operator: fuzzy or exact.
pub fn search_step(fuzzy: bool) -> (r: (&'static str, &'static str))
    ensures
        fuzzy ==> r.0@ == "analysis.fuzzy_search"@ && r.1@ == "builtin.fuzzy_search"@,
        !fuzzy ==> r.0@ == "analysis.basic_search"@ && r.1@ == "builtin.search"@,
{
    if fuzzy {
        ("analysis.fuzzy_search", "builtin.fuzzy_search")
    } else {
        ("analysis.basic_search", "builtin.search")
    }
}

/// The number of batches a run of `n` source segments takes.
pub fn batch_count(n: usize) -> (r: usize)
    ensures
        r * RESEARCH_BATCH >= n,
        r == 0 || (r - 1) * RESEARCH_BATCH < n,
{
    let r = n / RESEARCH_BATCH + if n % RESEARCH_BATCH == 0 { 0 } else { 1 };
    assert(r * RESEARCH_BATCH >= n && (r == 0 || (r - 1) * RESEARCH_BATCH < n)) by (nonlinear_arith)
        requires
            r == n / 16 + if n % 16 == 0 { 0int } else { 1int },
            RESEARCH_BATCH == 16,
    ;
    r
}

/// An alignment gives context to the batch's matches when its first target
/// segment lies in the primary translation and one of its source segments
/// was matched. Segments are looked up by identifier as a map built from
/// them keeps them (the last one with an identifier).
pub open spec fn is_context(a: Alignment, segments: Seq<Segment>, primary: DocumentId, matched: Seq<SegmentId>) -> bool {
    &&& a.target_segment_ids@.len() > 0
    &&& segment_by_id(segments, a.target_segment_ids@[0]) matches Some(k) && segments[k].document_id == primary
    &&& exists|j: int| 0 <= j < a.source_segment_ids@.len() && matched.contains(#[trigger] a.source_segment_ids@[j])
}

/// The positions of the first `n` alignments that give context, in order.
pub open spec fn context_positions(alignments: Seq<Alignment>, segments: Seq<Segment>, primary: DocumentId, matched: Seq<SegmentId>, n: int) -> Seq<int>
    decreases n,
{
    if n <= 0 || n > alignments.len() {
        Seq::empty()
    } else {
        let rest = context_positions(alignments, segments, primary, matched, n - 1);
        if is_context(alignments[n - 1], segments, primary, matched) { rest.push(n - 1) } else { rest }
    }
}

fn shares_segment(ids: &Vec<SegmentId>, matched: &Vec<SegmentId>) -> (r: bool)
    ensures
        r == exists|j: int| 0 <= j < ids@.len() && matched@.contains(#[trigger] ids@[j]),
{
    let mut j: usize = 0;
    while j < ids.len()
        invariant
            0 <= j <= ids@.len(),
            forall|k: int| 0 <= k < j ==> !matched@.contains(#[trigger] ids@[k]),
        decreases ids@.len() - j,
    {
        if contains_segment(matched, ids[j]) {
            return true;
        }
        j += 1;
    }
    false
}

/// The alignments that give context to a batch's matches, by position.
pub fn research_contexts(alignments: &Vec<Alignment>, segments: &Vec<Segment>, primary: DocumentId, matched: &Vec<SegmentId>) -> (r: Vec<usize>)
    ensures
        as_ints(r@) == context_positions(alignments@, segments@, primary, matched@, alignments@.len() as int),
{
    let mut out: Vec<usize> = Vec::new();
    let mut i: usize = 0;
    while i < alignments.len()
        invariant
            0 <= i <= alignments@.len(),
            as_ints(out@) == context_positions(alignments@, segments@, primary, matched@, i as int),
        decreases alignments@.len() - i,
    {
        let a = &alignments[i];
        let mut keep = false;
        if a.target_segment_ids.len() > 0 {
            match find_segment(segments, a.target_segment_ids[0]) {
                Some(k) => {
                    proof {
                        lemma_segment_by_id_range(segments@, a.target_segment_ids@[0]);
                    }
                    keep = segments[k].document_id == primary && shares_segment(&a.source_segment_ids, matched);
                },
                None => {},
            }
        }
        assert(keep == is_context(alignments@[i as int], segments@, primary, matched@));
        let ghost before = out@;
        if keep {
            out.push(i);
            assert(as_ints(out@) =~= as_ints(before).push(i as int));
        }
        i += 1;
    }
    out
}

/// The positions of the segments an identifier list names, in order; an
/// identifier without a segment is left out.
pub open spec fn side_positions(ids: Seq<SegmentId>, segments: Seq<Segment>) -> Seq<int>
    decreases ids.len(),
{
    if ids.len() == 0 {
        Seq::empty()
    } else {
        let rest = side_positions(ids.drop_last(), segments);
        match segment_by_id(segments, ids.last()) {
            Some(k) => rest.push(k),
            None => rest,
        }
    }
}

/// The target segments an occurrence of the source segment shows: those of
/// each context, in order, whose source segments hold it.
pub open spec fn occurrence_target_positions(
    contexts: Seq<int>,
    alignments: Seq<Alignment>,
    segments: Seq<Segment>,
    source: SegmentId,
) -> Seq<int>
    decreases contexts.len(),
{
    if contexts.len() == 0 {
        Seq::empty()
    } else {
        let rest = occurrence_target_positions(contexts.drop_last(), alignments, segments, source);
        let a = alignments[contexts.last()];
        if a.source_segment_ids@.contains(source) {
            rest + side_positions(a.target_segment_ids@, segments)
        } else {
            rest
        }
    }
}

fn append_side(out: &mut Vec<usize>, ids: &Vec<SegmentId>, segments: &Vec<Segment>)
    ensures
        as_ints(final(out)@) == as_ints(old(out)@) + side_positions(ids@, segments@),
{
    let mut k: usize = 0;
    let ghost start = as_ints(out@);
    while k < ids.len()
        invariant
            0 <= k <= ids@.len(),
            as_ints(out@) == start + side_positions(ids@.take(k as int), segments@),
        decreases ids@.len() - k,
    {
        assert(ids@.take(k as int + 1).drop_last() == ids@.take(k as int));
        assert(ids@.take(k as int + 1).last() == ids@[k as int]);
        let ghost before = out@;
        match find_segment(segments, ids[k]) {
            Some(p) => {
                out.push(p);
                assert(as_ints(out@) =~= as_ints(before).push(p as int));
                assert(start + side_positions(ids@.take(k as int + 1), segments@) =~= (start + side_positions(ids@.take(k as int), segments@)).push(p as int));
            },
            None => {},
        }
        k += 1;
    }
    assert(ids@.take(ids@.len() as int) == ids@);
}

/// The positions of the target segments an occurrence of `source` shows.
pub fn occurrence_targets(contexts: &Vec<usize>, alignments: &Vec<Alignment>, segments: &Vec<Segment>, source: SegmentId) -> (r: Vec<usize>)
    requires
        forall|c: int| 0 <= c < contexts@.len() ==> #[trigger] contexts@[c] < alignments@.len(),
    ensures
        as_ints(r@) == occurrence_target_positions(as_ints(contexts@), alignments@, segments@, source),
{
    let mut out: Vec<usize> = Vec::new();
    let mut c: usize = 0;
    while c < contexts.len()
        invariant
            0 <= c <= contexts@.len(),
            forall|x: int| 0 <= x < contexts@.len() ==> #[trigger] contexts@[x] < alignments@.len(),
            as_ints(out@) == occurrence_target_positions(as_ints(contexts@.take(c as int)), alignments@, segments@, source),
        decreases contexts@.len() - c,
    {
        assert(as_ints(contexts@.take(c as int + 1)).drop_last() =~= as_ints(contexts@.take(c as int)));
        assert(as_ints(contexts@.take(c as int + 1)).last() == contexts@[c as int] as int);
        let a = &alignments[contexts[c]];
        if contains_segment(&a.source_segment_ids, source) {
            append_side(&mut out, &a.target_segment_ids, segments);
        }
        c += 1;
    }
    assert(contexts@.take(contexts@.len() as int) == contexts@);
    out
}

/// The alignment coverage an occurrence reports: `not_requested` when the
/// query did not ask to locate translations; else what the candidate step
/// reported for it, or, failing that, `context_missing` when it shows no
/// target segment and `unknown` otherwise.
pub fn coverage_label(auto_locate: bool, reported: Option<&str>, has_targets: bool) -> (r: String)
    ensures
        !auto_locate ==> r@ == "not_requested"@,
        auto_locate ==> r@ == (match reported {
            Some(c) => c@,
            None => if has_targets { "unknown"@ } else { "context_missing"@ },
        }),
{
    if !auto_locate {
        "not_requested".to_owned()
    } else {
        match reported {
            Some(c) => c.to_owned(),
            None => if has_targets { "unknown".to_owned() } else { "context_missing".to_owned() },
        }
    }
}

/// Translation candidates are located only when the query asks for them and
/// some aligned passage gives context.
pub fn locates_candidates(auto_locate: bool, contexts: usize) -> (r: bool)
    ensures
        r == (auto_locate && contexts > 0),
{
    auto_locate && contexts > 0
}

} // verus!

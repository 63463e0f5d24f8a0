//! Manual and provisional relations and cardinality validation.
use vstd::prelude::*;
use std::collections::HashMap;
use crate::error::CoreError;
use crate::ids::{AlignmentId, ProjectId, RevisionId, SegmentId};
use crate::project::Document;
use crate::segment::Segment;

verus! {

broadcast use vstd::std_specs::hash::group_hash_axioms;

#[derive(Clone, Copy, Debug, PartialEq, Eq, Structural)]
pub enum AlignmentProducer {
    Provisional,
    Manual,
}

/// The shape of a relation: how many segments on each side.
#[derive(Clone, Copy, Debug, PartialEq, Eq, Structural)]
pub enum Cardinality {
    OneToOne,
    OneToMany,
    ManyToOne,
    ManyToMany,
}

/// The cardinality of `source` to `target` segments; both sides must be non-empty.
pub open spec fn spec_cardinality(source: nat, target: nat) -> Result<Cardinality, CoreError> {
    if source == 0 || target == 0 {
        Err(CoreError::EmptyAlignment)
    } else if source == 1 && target == 1 {
        Ok(Cardinality::OneToOne)
    } else if source == 1 {
        Ok(Cardinality::OneToMany)
    } else if target == 1 {
        Ok(Cardinality::ManyToOne)
    } else {
        Ok(Cardinality::ManyToMany)
    }
}

impl Cardinality {
    pub fn of(source: usize, target: usize) -> (r: Result<Self, CoreError>)
        ensures
            r == spec_cardinality(source as nat, target as nat),
    {
        if source == 0 || target == 0 {
            Err(CoreError::EmptyAlignment)
        } else if source == 1 && target == 1 {
            Ok(Cardinality::OneToOne)
        } else if source == 1 {
            Ok(Cardinality::OneToMany)
        } else if target == 1 {
            Ok(Cardinality::ManyToOne)
        } else {
            Ok(Cardinality::ManyToMany)
        }
    }
}

/// The cardinality depends only on whether each side has one member or
/// several: one to one, one to many, many to one, many to many; a side with
/// no member is refused.
pub proof fn cardinality_counts_members(source: nat, target: nat)
    ensures
        spec_cardinality(source, target) == Err::<Cardinality, CoreError>(CoreError::EmptyAlignment) <==> (source == 0 || target == 0),
        spec_cardinality(source, target) == Ok::<Cardinality, CoreError>(Cardinality::OneToOne) <==> (source == 1 && target == 1),
        spec_cardinality(source, target) == Ok::<Cardinality, CoreError>(Cardinality::OneToMany) <==> (source == 1 && target > 1),
        spec_cardinality(source, target) == Ok::<Cardinality, CoreError>(Cardinality::ManyToOne) <==> (source > 1 && target == 1),
        spec_cardinality(source, target) == Ok::<Cardinality, CoreError>(Cardinality::ManyToMany) <==> (source > 1 && target > 1),
{
}

/// Swapping the two sides of a relation swaps one-to-many and many-to-one
/// and keeps the other shapes.
pub proof fn cardinality_mirrors(source: nat, target: nat)
    ensures
        spec_cardinality(target, source) == match spec_cardinality(source, target) {
            Ok(Cardinality::OneToMany) => Ok::<Cardinality, CoreError>(Cardinality::ManyToOne),
            Ok(Cardinality::ManyToOne) => Ok::<Cardinality, CoreError>(Cardinality::OneToMany),
            other => other,
        },
{
}

/// A relation between source and target segments.
#[derive(Clone, Debug, PartialEq, Eq)]
pub struct Alignment {
    pub alignment_id: AlignmentId,
    pub project_id: ProjectId,
    pub source_segment_ids: Vec<SegmentId>,
    pub target_segment_ids: Vec<SegmentId>,
    pub producer: AlignmentProducer,
    pub cardinality: Cardinality,
    pub created_revision_id: RevisionId,
    pub updated_revision_id: RevisionId,
}

fn has_duplicates(values: &Vec<SegmentId>) -> (r: bool)
    ensures
        r == !values@.no_duplicates(),
{
    let mut i: usize = 0;
    while i < values.len()
        invariant
            0 <= i <= values@.len(),
            forall|a: int, b: int| 0 <= a < b < values@.len() && a < i ==> values@[a] != values@[b],
        decreases values@.len() - i,
    {
        let mut j: usize = i + 1;
        while j < values.len()
            invariant
                i < j <= values@.len(),
                forall|a: int, b: int| 0 <= a < b < values@.len() && a < i ==> values@[a] != values@[b],
                forall|b: int| i < b < j ==> values@[i as int] != values@[b],
            decreases values@.len() - j,
        {
            if values[i] == values[j] {
                return true;
            }
            j += 1;
        }
        i += 1;
    }
    false
}

impl Alignment {
    /// A manual relation; its cardinality is derived from the two sides.
    pub fn new(
        project_id: ProjectId,
        source_segment_ids: Vec<SegmentId>,
        target_segment_ids: Vec<SegmentId>,
        revision: RevisionId,
    ) -> (r: Result<Self, CoreError>)
        ensures
            spec_cardinality(source_segment_ids@.len(), target_segment_ids@.len()) is Err ==> r
                == Err::<Self, CoreError>(CoreError::EmptyAlignment),
            spec_cardinality(source_segment_ids@.len(), target_segment_ids@.len()) is Ok ==> (
            !source_segment_ids@.no_duplicates() || !target_segment_ids@.no_duplicates()) ==> r
                == Err::<Self, CoreError>(CoreError::DuplicateAlignmentReference),
            spec_cardinality(source_segment_ids@.len(), target_segment_ids@.len()) is Ok
                && source_segment_ids@.no_duplicates() && target_segment_ids@.no_duplicates() ==> r is Ok,
            r matches Ok(a) ==> {
                &&& source_segment_ids@.no_duplicates()
                &&& target_segment_ids@.no_duplicates()
                &&& spec_cardinality(source_segment_ids@.len(), target_segment_ids@.len()) == Ok::<Cardinality, CoreError>(a.cardinality)
                &&& a.project_id == project_id
                &&& a.source_segment_ids@ == source_segment_ids@
                &&& a.target_segment_ids@ == target_segment_ids@
                &&& a.producer == AlignmentProducer::Manual
                &&& a.created_revision_id == revision
                &&& a.updated_revision_id == revision
            },
    {
        let cardinality = match Cardinality::of(source_segment_ids.len(), target_segment_ids.len()) {
            Ok(c) => c,
            Err(e) => return Err(e),
        };
        if has_duplicates(&source_segment_ids) || has_duplicates(&target_segment_ids) {
            return Err(CoreError::DuplicateAlignmentReference);
        }
        Ok(Alignment {
            alignment_id: AlignmentId::new(),
            project_id,
            source_segment_ids,
            target_segment_ids,
            producer: AlignmentProducer::Manual,
            cardinality,
            created_revision_id: revision,
            updated_revision_id: revision,
        })
    }
}

/// The provisional one-to-one pairing of two imported documents, with the
/// leftover segments of the longer side.
#[derive(Clone, Debug, PartialEq, Eq)]
pub struct InitialLayout {
    pub alignments: Vec<Alignment>,
    pub source_unlinked: Vec<SegmentId>,
    pub target_unlinked: Vec<SegmentId>,
}

pub open spec fn ids_of(segs: Seq<Segment>) -> Seq<SegmentId> {
    segs.map_values(|s: Segment| s.segment_id)
}

/// The layout pairs the `i`-th source with the `i`-th target segment for as
/// many positions as both sides have, and leaves the rest unlinked in order.
pub open spec fn is_provisional_layout(
    layout: InitialLayout,
    project_id: ProjectId,
    source: Seq<Segment>,
    target: Seq<Segment>,
    revision: RevisionId,
) -> bool {
    let count = if source.len() <= target.len() { source.len() } else { target.len() };
    &&& layout.alignments@.len() == count
    &&& forall|i: int| 0 <= i < count ==> {
        let a = #[trigger] layout.alignments@[i];
        &&& a.project_id == project_id
        &&& a.source_segment_ids@ == seq![source[i].segment_id]
        &&& a.target_segment_ids@ == seq![target[i].segment_id]
        &&& a.producer == AlignmentProducer::Provisional
        &&& a.cardinality == Cardinality::OneToOne
        &&& a.created_revision_id == revision
        &&& a.updated_revision_id == revision
    }
    &&& layout.source_unlinked@ == ids_of(source).skip(count as int)
    &&& layout.target_unlinked@ == ids_of(target).skip(count as int)
}

/// Documents of equal length are paired completely: one relation per
/// position and no segment left unlinked on either side.
pub proof fn equal_lengths_pair_completely(
    layout: InitialLayout,
    project_id: ProjectId,
    source: Seq<Segment>,
    target: Seq<Segment>,
    revision: RevisionId,
)
    requires
        is_provisional_layout(layout, project_id, source, target, revision),
        source.len() == target.len(),
    ensures
        layout.alignments@.len() == source.len(),
        layout.source_unlinked@.len() == 0,
        layout.target_unlinked@.len() == 0,
{
}

/// Every segment of either side is accounted for exactly once: as a member
/// of the relation at its position, or as unlinked.
pub proof fn layout_accounts_for_every_segment(
    layout: InitialLayout,
    project_id: ProjectId,
    source: Seq<Segment>,
    target: Seq<Segment>,
    revision: RevisionId,
)
    requires
        is_provisional_layout(layout, project_id, source, target, revision),
    ensures
        layout.alignments@.len() + layout.source_unlinked@.len() == source.len(),
        layout.alignments@.len() + layout.target_unlinked@.len() == target.len(),
        layout.source_unlinked@.len() == 0 || layout.target_unlinked@.len() == 0,
{
}

fn unlinked_ids(segs: &[Segment], from: usize) -> (r: Vec<SegmentId>)
    requires
        from <= segs@.len(),
    ensures
        r@ == ids_of(segs@).skip(from as int),
{
    let mut r: Vec<SegmentId> = Vec::new();
    let mut i = from;
    while i < segs.len()
        invariant
            from <= i <= segs@.len(),
            r@ == ids_of(segs@).subrange(from as int, i as int),
        decreases segs@.len() - i,
    {
        r.push(segs[i].segment_id);
        assert(ids_of(segs@).subrange(from as int, i as int + 1) == ids_of(segs@).subrange(from as int, i as int).push(segs@[i as int].segment_id));
        i += 1;
    }
    assert(ids_of(segs@).subrange(from as int, segs@.len() as int) == ids_of(segs@).skip(from as int));
    r
}

/// Pairs segments position by position as provisional one-to-one relations.
pub fn build_provisional_layout(
    project_id: ProjectId,
    source: &[Segment],
    target: &[Segment],
    revision: RevisionId,
) -> (r: Result<InitialLayout, CoreError>)
    ensures
        r matches Ok(layout) && is_provisional_layout(layout, project_id, source@, target@, revision),
{
    let count = if source.len() <= target.len() { source.len() } else { target.len() };
    let mut alignments: Vec<Alignment> = Vec::new();
    let mut index: usize = 0;
    while index < count
        invariant
            0 <= index <= count,
            count <= source@.len(),
            count <= target@.len(),
            alignments@.len() == index,
            forall|i: int| 0 <= i < index ==> {
                let a = #[trigger] alignments@[i];
                &&& a.project_id == project_id
                &&& a.source_segment_ids@ == seq![source@[i].segment_id]
                &&& a.target_segment_ids@ == seq![target@[i].segment_id]
                &&& a.producer == AlignmentProducer::Provisional
                &&& a.cardinality == Cardinality::OneToOne
                &&& a.created_revision_id == revision
                &&& a.updated_revision_id == revision
            },
        decreases count - index,
    {
        let s = vec![source[index].segment_id];
        let t = vec![target[index].segment_id];
        assert(s@ == seq![source@[index as int].segment_id]);
        assert(t@ == seq![target@[index as int].segment_id]);
        assert(s@.no_duplicates());
        assert(t@.no_duplicates());
        let mut alignment = match Alignment::new(project_id, s, t, revision) {
            Ok(a) => a,
            Err(e) => return Err(e),
        };
        alignment.producer = AlignmentProducer::Provisional;
        alignments.push(alignment);
        index += 1;
    }
    Ok(InitialLayout {
        alignments,
        source_unlinked: unlinked_ids(source, count),
        target_unlinked: unlinked_ids(target, count),
    })
}

/// The provisional layout of two documents; the same pairing as `build_provisional_layout`.
pub fn provisional_alignment_layout(
    project_id: ProjectId,
    source: &[Segment],
    target: &[Segment],
    revision: RevisionId,
) -> (r: Result<InitialLayout, CoreError>)
    ensures
        r matches Ok(layout) && is_provisional_layout(layout, project_id, source@, target@, revision),
{
    build_provisional_layout(project_id, source, target, revision)
}

/// Every identity of a segment list lies in the given document, per the segment table.
pub open spec fn all_in_document(ids: Seq<SegmentId>, document: Document, segments: Map<u128, Segment>) -> bool {
    forall|i: int| 0 <= i < ids.len() ==> segments.contains_key((#[trigger] ids[i]).value())
        && segments[ids[i].value()].document_id == document.document_id
}

/// What validation answers for an alignment.
pub open spec fn spec_validate_alignment(
    alignment: Alignment,
    project_id: ProjectId,
    source_document: Document,
    target_document: Document,
    segments: Map<u128, Segment>,
) -> Result<(), CoreError> {
    if alignment.project_id != project_id {
        Err(CoreError::InvalidAlignmentReference)
    } else {
        match spec_cardinality(alignment.source_segment_ids@.len(), alignment.target_segment_ids@.len()) {
            Err(e) => Err(e),
            Ok(c) => if c != alignment.cardinality || !alignment.source_segment_ids@.no_duplicates()
                || !alignment.target_segment_ids@.no_duplicates() || !all_in_document(
                alignment.source_segment_ids@,
                source_document,
                segments,
            ) || !all_in_document(alignment.target_segment_ids@, target_document, segments) {
                Err(CoreError::InvalidAlignmentReference)
            } else {
                Ok(())
            },
        }
    }
}

fn all_in_document_exec(ids: &Vec<SegmentId>, document: &Document, segments: &HashMap<u128, Segment>) -> (r: bool)
    ensures
        r == all_in_document(ids@, *document, segments@),
{
    let mut i: usize = 0;
    while i < ids.len()
        invariant
            0 <= i <= ids@.len(),
            forall|j: int| 0 <= j < i ==> segments@.contains_key((#[trigger] ids@[j]).value())
                && segments@[ids@[j].value()].document_id == document.document_id,
        decreases ids@.len() - i,
    {
        let key = ids[i].as_u128();
        match segments.get(&key) {
            Some(s) => {
                if s.document_id != document.document_id {
                    return false;
                }
            },
            None => {
                return false;
            },
        }
        i += 1;
    }
    true
}

/// Checks an alignment against its project, its derived cardinality, duplicate
/// references, and the documents its segments belong to. `segments` maps a
/// segment identity's value to the segment.
pub fn validate_alignment(
    alignment: &Alignment,
    project_id: ProjectId,
    source_document: &Document,
    target_document: &Document,
    segments: &HashMap<u128, Segment>,
) -> (r: Result<(), CoreError>)
    ensures
        r == spec_validate_alignment(*alignment, project_id, *source_document, *target_document, segments@),
{
    if alignment.project_id != project_id {
        return Err(CoreError::InvalidAlignmentReference);
    }
    let cardinality = match Cardinality::of(alignment.source_segment_ids.len(), alignment.target_segment_ids.len()) {
        Ok(c) => c,
        Err(e) => return Err(e),
    };
    if alignment.cardinality != cardinality || has_duplicates(&alignment.source_segment_ids)
        || has_duplicates(&alignment.target_segment_ids) {
        return Err(CoreError::InvalidAlignmentReference);
    }
    if !all_in_document_exec(&alignment.source_segment_ids, source_document, segments) {
        return Err(CoreError::InvalidAlignmentReference);
    }
    if !all_in_document_exec(&alignment.target_segment_ids, target_document, segments) {
        return Err(CoreError::InvalidAlignmentReference);
    }
    Ok(())
}

} // verus!

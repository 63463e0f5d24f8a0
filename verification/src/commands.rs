//! The kinds of command the trusted native client sends through a command
//! envelope, by the names the envelope carries.
use vstd::prelude::*;
use crate::strings::str_eq;

verus! {

/// A native command's kind.
#[derive(Clone, Copy, Debug, PartialEq, Eq, Structural)]
pub enum NativeCommandKind {
    UpdateSegment,
    MoveSegment,
    ReorderSegments,
    InsertAlignmentGap,
    LinkSegments,
    UnlinkAlignment,
    MergeSegments,
    SplitSegment,
    GroupAlignment,
    UngroupAlignment,
    CreateBookmark,
    UpdateBookmark,
    DeleteBookmark,
    CreateAnnotation,
    UpdateAnnotation,
    DeleteAnnotation,
    ResolveAnnotation,
    ApplyReplace,
    ConfirmResearch,
    MergeResearchGroups,
    Undo,
    Redo,
    RestoreRevision,
}

/// The kind an envelope's `kind` names: the snake-case name of each kind,
/// with `merge_alignments` and `merge_alignment` also naming
/// `group_alignment`, and `split_alignment` naming `ungroup_alignment`.
pub open spec fn command_kind_of(kind: Seq<char>) -> Option<NativeCommandKind> {
    if kind == "update_segment"@ { Some(NativeCommandKind::UpdateSegment) }
    else if kind == "move_segment"@ { Some(NativeCommandKind::MoveSegment) }
    else if kind == "reorder_segments"@ { Some(NativeCommandKind::ReorderSegments) }
    else if kind == "insert_alignment_gap"@ { Some(NativeCommandKind::InsertAlignmentGap) }
    else if kind == "link_segments"@ { Some(NativeCommandKind::LinkSegments) }
    else if kind == "unlink_alignment"@ { Some(NativeCommandKind::UnlinkAlignment) }
    else if kind == "merge_segments"@ { Some(NativeCommandKind::MergeSegments) }
    else if kind == "split_segment"@ { Some(NativeCommandKind::SplitSegment) }
    else if kind == "group_alignment"@ { Some(NativeCommandKind::GroupAlignment) }
    else if kind == "merge_alignments"@ { Some(NativeCommandKind::GroupAlignment) }
    else if kind == "merge_alignment"@ { Some(NativeCommandKind::GroupAlignment) }
    else if kind == "ungroup_alignment"@ { Some(NativeCommandKind::UngroupAlignment) }
    else if kind == "split_alignment"@ { Some(NativeCommandKind::UngroupAlignment) }
    else if kind == "create_bookmark"@ { Some(NativeCommandKind::CreateBookmark) }
    else if kind == "update_bookmark"@ { Some(NativeCommandKind::UpdateBookmark) }
    else if kind == "delete_bookmark"@ { Some(NativeCommandKind::DeleteBookmark) }
    else if kind == "create_annotation"@ { Some(NativeCommandKind::CreateAnnotation) }
    else if kind == "update_annotation"@ { Some(NativeCommandKind::UpdateAnnotation) }
    else if kind == "delete_annotation"@ { Some(NativeCommandKind::DeleteAnnotation) }
    else if kind == "resolve_annotation"@ { Some(NativeCommandKind::ResolveAnnotation) }
    else if kind == "apply_replace"@ { Some(NativeCommandKind::ApplyReplace) }
    else if kind == "confirm_research"@ { Some(NativeCommandKind::ConfirmResearch) }
    else if kind == "merge_research_groups"@ { Some(NativeCommandKind::MergeResearchGroups) }
    else if kind == "undo"@ { Some(NativeCommandKind::Undo) }
    else if kind == "redo"@ { Some(NativeCommandKind::Redo) }
    else if kind == "restore_revision"@ { Some(NativeCommandKind::RestoreRevision) }
    else { None }
}

/// Reads the kind of a native command envelope; `None` for a name no kind has.
pub fn command_kind(kind: &str) -> (r: Option<NativeCommandKind>)
    ensures
        r == command_kind_of(kind@),
{
    if str_eq(kind, "update_segment") { Some(NativeCommandKind::UpdateSegment) }
    else if str_eq(kind, "move_segment") { Some(NativeCommandKind::MoveSegment) }
    else if str_eq(kind, "reorder_segments") { Some(NativeCommandKind::ReorderSegments) }
    else if str_eq(kind, "insert_alignment_gap") { Some(NativeCommandKind::InsertAlignmentGap) }
    else if str_eq(kind, "link_segments") { Some(NativeCommandKind::LinkSegments) }
    else if str_eq(kind, "unlink_alignment") { Some(NativeCommandKind::UnlinkAlignment) }
    else if str_eq(kind, "merge_segments") { Some(NativeCommandKind::MergeSegments) }
    else if str_eq(kind, "split_segment") { Some(NativeCommandKind::SplitSegment) }
    else if str_eq(kind, "group_alignment") { Some(NativeCommandKind::GroupAlignment) }
    else if str_eq(kind, "merge_alignments") { Some(NativeCommandKind::GroupAlignment) }
    else if str_eq(kind, "merge_alignment") { Some(NativeCommandKind::GroupAlignment) }
    else if str_eq(kind, "ungroup_alignment") { Some(NativeCommandKind::UngroupAlignment) }
    else if str_eq(kind, "split_alignment") { Some(NativeCommandKind::UngroupAlignment) }
    else if str_eq(kind, "create_bookmark") { Some(NativeCommandKind::CreateBookmark) }
    else if str_eq(kind, "update_bookmark") { Some(NativeCommandKind::UpdateBookmark) }
    else if str_eq(kind, "delete_bookmark") { Some(NativeCommandKind::DeleteBookmark) }
    else if str_eq(kind, "create_annotation") { Some(NativeCommandKind::CreateAnnotation) }
    else if str_eq(kind, "update_annotation") { Some(NativeCommandKind::UpdateAnnotation) }
    else if str_eq(kind, "delete_annotation") { Some(NativeCommandKind::DeleteAnnotation) }
    else if str_eq(kind, "resolve_annotation") { Some(NativeCommandKind::ResolveAnnotation) }
    else if str_eq(kind, "apply_replace") { Some(NativeCommandKind::ApplyReplace) }
    else if str_eq(kind, "confirm_research") { Some(NativeCommandKind::ConfirmResearch) }
    else if str_eq(kind, "merge_research_groups") { Some(NativeCommandKind::MergeResearchGroups) }
    else if str_eq(kind, "undo") { Some(NativeCommandKind::Undo) }
    else if str_eq(kind, "redo") { Some(NativeCommandKind::Redo) }
    else if str_eq(kind, "restore_revision") { Some(NativeCommandKind::RestoreRevision) }
    else { None }
}

} // verus!

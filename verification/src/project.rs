//! Project/document ownership, independent of physical storage.
use vstd::prelude::*;
use crate::error::CoreError;
use crate::ids::{AssetId, DocumentId, ProjectId, RevisionId, SegmentOrderId};
use crate::revision::Revision;

verus! {

/// A language tag such as `zh-CN`.
pub type LanguageId = String;
/// An RFC 3339 timestamp.
pub type Timestamp = String;

#[derive(Clone, Debug, PartialEq, Eq)]
pub struct Project {
    pub project_id: ProjectId,
    pub name: String,
    pub source_language: LanguageId,
    pub target_language: LanguageId,
    pub document_ids: Vec<DocumentId>,
    pub current_revision_id: RevisionId,
    pub format_version: String,
    pub created_at: Timestamp,
    pub updated_at: Timestamp,
}

impl Project {
    /// A new project with a fresh identity, no documents, format `1.0`,
    /// created and updated at `now`.
    pub fn new(
        name: String,
        source_language: String,
        target_language: String,
        revision: RevisionId,
        now: String,
    ) -> (r: Self)
        ensures
            r.name@ == name@,
            r.source_language@ == source_language@,
            r.target_language@ == target_language@,
            r.document_ids@.len() == 0,
            r.current_revision_id == revision,
            r.format_version@ == "1.0"@,
            r.created_at@ == now@,
            r.updated_at@ == now@,
    {
        let created_at = now.clone();
        Project {
            project_id: ProjectId::new(),
            name,
            source_language,
            target_language,
            document_ids: Vec::new(),
            current_revision_id: revision,
            format_version: "1.0".to_owned(),
            created_at,
            updated_at: now,
        }
    }
}

#[derive(Clone, Debug, PartialEq, Eq)]
pub struct Document {
    pub document_id: DocumentId,
    pub project_id: ProjectId,
    pub language_id: LanguageId,
    pub title: String,
    pub source_asset_id: AssetId,
    pub segment_order_id: SegmentOrderId,
    pub created_revision_id: RevisionId,
}

impl Document {
    /// A new document of a project, with fresh document, asset and order identities.
    pub fn new(project_id: ProjectId, language_id: String, title: String, revision: RevisionId) -> (r: Self)
        ensures
            r.project_id == project_id,
            r.language_id@ == language_id@,
            r.title@ == title@,
            r.created_revision_id == revision,
    {
        Document {
            document_id: DocumentId::new(),
            project_id,
            language_id,
            title,
            source_asset_id: AssetId::new(),
            segment_order_id: SegmentOrderId::new(),
            created_revision_id: revision,
        }
    }
}

pub open spec fn document_ids_of(documents: Seq<Document>) -> Seq<DocumentId> {
    documents.map_values(|d: Document| d.document_id)
}

/// A project's directory references are consistent: its documents have
/// distinct identities, the project lists exactly those documents, each
/// belongs to the project, and some revision of the project is the current one.
pub open spec fn project_consistent(project: Project, documents: Seq<Document>, revisions: Seq<Revision>) -> bool {
    &&& document_ids_of(documents).no_duplicates()
    &&& project.document_ids@.len() == documents.len()
    &&& project.document_ids@.to_set() == document_ids_of(documents).to_set()
    &&& forall|i: int| 0 <= i < documents.len() ==> (#[trigger] documents[i]).project_id == project.project_id
    &&& exists|i: int| 0 <= i < revisions.len() && (#[trigger] revisions[i]).project_id == project.project_id
        && revisions[i].revision_id == project.current_revision_id
}

fn contains_document(ids: &Vec<DocumentId>, id: DocumentId) -> (r: bool)
    ensures r == ids@.contains(id),
{
    let mut i: usize = 0;
    while i < ids.len()
        invariant
            0 <= i <= ids@.len(),
            forall|j: int| 0 <= j < i ==> ids@[j] != id,
        decreases ids@.len() - i,
    {
        if ids[i] == id {
            assert(ids@[i as int] == id);
            return true;
        }
        i += 1;
    }
    false
}

/// Validates the project directory references without knowing its physical store.
#[verifier::loop_isolation(false)]
pub fn validate_project(project: &Project, documents: &[Document], revisions: &[Revision]) -> (r: Result<(), CoreError>)
    ensures
        r is Ok <==> project_consistent(*project, documents@, revisions@),
        r is Err ==> r == Err::<(), CoreError>(CoreError::InvalidProject),
{
    let mut ids: Vec<DocumentId> = Vec::new();
    let mut i: usize = 0;
    while i < documents.len()
        invariant
            0 <= i <= documents@.len(),
            ids@ == document_ids_of(documents@).take(i as int),
            ids@.no_duplicates(),
        decreases documents@.len() - i,
    {
        let id = documents[i].document_id;
        if contains_document(&ids, id) {
            proof {
                let k = choose|k: int| 0 <= k < ids@.len() && ids@[k] == id;
                assert(document_ids_of(documents@)[k] == id);
                assert(document_ids_of(documents@)[i as int] == id);
            }
            return Err(CoreError::InvalidProject);
        }
        ids.push(id);
        assert(document_ids_of(documents@).take(i as int + 1) == document_ids_of(documents@).take(i as int).push(id));
        i += 1;
    }
    assert(document_ids_of(documents@).take(documents@.len() as int) == document_ids_of(documents@));
    if project.document_ids.len() != documents.len() {
        return Err(CoreError::InvalidProject);
    }
    let mut k: usize = 0;
    while k < project.document_ids.len()
        invariant
            0 <= k <= project.document_ids@.len(),
            ids@ == document_ids_of(documents@),
            forall|j: int| 0 <= j < k ==> ids@.contains(#[trigger] project.document_ids@[j]),
        decreases project.document_ids@.len() - k,
    {
        if !contains_document(&ids, project.document_ids[k]) {
            proof {
                let x = project.document_ids@[k as int];
                assert(project.document_ids@.to_set().contains(x));
                assert(!document_ids_of(documents@).to_set().contains(x));
            }
            return Err(CoreError::InvalidProject);
        }
        k += 1;
    }
    let mut m: usize = 0;
    while m < ids.len()
        invariant
            0 <= m <= ids@.len(),
            ids@ == document_ids_of(documents@),
            forall|j: int| 0 <= j < m ==> project.document_ids@.contains(#[trigger] ids@[j]),
        decreases ids@.len() - m,
    {
        if !contains_document(&project.document_ids, ids[m]) {
            proof {
                let x = ids@[m as int];
                assert(document_ids_of(documents@).to_set().contains(x));
                assert(!project.document_ids@.to_set().contains(x));
            }
            return Err(CoreError::InvalidProject);
        }
        m += 1;
    }
    assert(project.document_ids@.to_set() =~= document_ids_of(documents@).to_set()) by {
        assert forall|x: DocumentId| project.document_ids@.to_set().contains(x) implies document_ids_of(documents@).to_set().contains(x) by {
            let j = choose|j: int| 0 <= j < project.document_ids@.len() && project.document_ids@[j] == x;
            assert(ids@.contains(project.document_ids@[j]));
        }
        assert forall|x: DocumentId| document_ids_of(documents@).to_set().contains(x) implies project.document_ids@.to_set().contains(x) by {
            let j = choose|j: int| 0 <= j < ids@.len() && ids@[j] == x;
            assert(project.document_ids@.contains(ids@[j]));
        }
    }
    let mut d: usize = 0;
    while d < documents.len()
        invariant
            0 <= d <= documents@.len(),
            forall|j: int| 0 <= j < d ==> (#[trigger] documents@[j]).project_id == project.project_id,
        decreases documents@.len() - d,
    {
        if documents[d].project_id != project.project_id {
            return Err(CoreError::InvalidProject);
        }
        d += 1;
    }
    let mut v: usize = 0;
    while v < revisions.len()
        invariant
            0 <= v <= revisions@.len(),
            forall|j: int| 0 <= j < v ==> !((#[trigger] revisions@[j]).project_id == project.project_id
                && revisions@[j].revision_id == project.current_revision_id),
        decreases revisions@.len() - v,
    {
        if revisions[v].project_id == project.project_id && revisions[v].revision_id == project.current_revision_id {
            return Ok(());
        }
        v += 1;
    }
    Err(CoreError::InvalidProject)
}

} // verus!

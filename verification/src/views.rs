//! Pull-based snapshot views: leases on a frozen project revision that one
//! binding reads in pages, and the pages of a published index.
use vstd::prelude::*;
use crate::application::{refused, AppError};
use crate::ids::{ProjectId, RevisionId};
use crate::research::{group_window, in_group, rank, served_limit, MAX_RESEARCH_PAGE};
use crate::strings::{append_str, str_eq};
use crate::transport::{contains_string, views_of};

verus! {

/// The page size served when a request names none.
pub const DEFAULT_POOL_PAGE: u64 = 100;

/// The page size of a pool read: the requested one, or the default, kept
/// between one and the largest research page.
pub open spec fn spec_pool_limit(limit: Option<u64>) -> int {
    let l = match limit { Some(l) => l as int, None => DEFAULT_POOL_PAGE as int };
    if l < 1 { 1 } else if l > MAX_RESEARCH_PAGE as int { MAX_RESEARCH_PAGE as int } else { l }
}

pub fn pool_limit(limit: Option<u64>) -> (r: usize)
    ensures
        r == spec_pool_limit(limit),
        1 <= r <= MAX_RESEARCH_PAGE,
{
    let l = match limit {
        Some(l) => l,
        None => DEFAULT_POOL_PAGE,
    };
    if l < 1 {
        1
    } else if l > 200 {
        MAX_RESEARCH_PAGE
    } else {
        l as usize
    }
}

fn pool_error(message: &str) -> (r: AppError)
    ensures
        r.code@ == "pool_error"@,
        r.message@ == message@,
{
    AppError::new("pool_error", message)
}

/// A schema by name and version.
#[derive(Clone, Debug, PartialEq, Eq)]
pub struct SchemaRef {
    pub name: String,
    pub version: u64,
}

/// Only the basic and lexical index schemas, version 1, can be read in partitions.
pub fn check_index_schema(schema: &SchemaRef) -> (r: Result<(), AppError>)
    ensures
        ((schema.name@ == "BasicIndexRef"@ || schema.name@ == "LexicalIndexRef"@) && schema.version == 1) ==> r is Ok,
        !((schema.name@ == "BasicIndexRef"@ || schema.name@ == "LexicalIndexRef"@) && schema.version == 1) ==> refused(
            r,
            ("pool_error"@, "handle does not refer to a supported index"@),
        ),
{
    let name = schema.name.as_str();
    if (str_eq(name, "BasicIndexRef") || str_eq(name, "LexicalIndexRef")) && schema.version == 1 {
        Ok(())
    } else {
        Err(pool_error("handle does not refer to a supported index"))
    }
}

/// The schema a view is opened with when the request names none.
pub fn default_view_schema() -> (r: SchemaRef)
    ensures
        r.name@ == "SegmentView"@,
        r.version == 1,
{
    SchemaRef { name: "SegmentView".to_owned(), version: 1 }
}

/// A view shows segments or text, version 1.
pub fn check_view_schema(schema: &SchemaRef) -> (r: Result<(), AppError>)
    ensures
        ((schema.name@ == "SegmentView"@ || schema.name@ == "TextView"@) && schema.version == 1) ==> r is Ok,
        !((schema.name@ == "SegmentView"@ || schema.name@ == "TextView"@) && schema.version == 1) ==> refused(
            r,
            ("pool_error"@, "view requires SegmentView or TextView schema 1"@),
        ),
{
    let name = schema.name.as_str();
    if (str_eq(name, "SegmentView") || str_eq(name, "TextView")) && schema.version == 1 {
        Ok(())
    } else {
        Err(pool_error("view requires SegmentView or TextView schema 1"))
    }
}

/// The side of the alignment a view reads: `source` unless `target` is asked for.
pub fn view_side(side: Option<&str>) -> (r: Result<String, AppError>)
    ensures
        match side {
            None => r matches Ok(x) && x@ == "source"@,
            Some(s) => if s@ == "source"@ || s@ == "target"@ {
                r matches Ok(x) && x@ == s@
            } else {
                refused(r, ("pool_error"@, "unknown view side"@))
            },
        },
{
    match side {
        None => Ok("source".to_owned()),
        Some(s) => {
            if str_eq(s, "source") || str_eq(s, "target") {
                Ok(s.to_owned())
            } else {
                Err(pool_error("unknown view side"))
            }
        },
    }
}

/// Pool calls are made on behalf of a binding.
pub fn pool_binding(binding: Option<&str>) -> (r: Result<&str, AppError>)
    ensures
        binding matches Some(b) ==> r == Ok::<&str, AppError>(b),
        binding is None ==> refused(r, ("pool_error"@, "binding required"@)),
{
    match binding {
        Some(b) => Ok(b),
        None => Err(pool_error("binding required")),
    }
}

/// A lease on one project revision, held by the binding that opened it, with
/// the handles of the pages it published.
#[derive(Clone, Debug)]
pub struct ViewLease {
    pub view_id: String,
    pub project_id: ProjectId,
    pub revision_id: RevisionId,
    pub owner_binding: String,
    pub schema: SchemaRef,
    pub side: String,
    pub closed: bool,
    pub handles: Vec<String>,
}

impl ViewLease {
    /// A new open lease that has published nothing.
    pub fn open(
        view_id: String,
        project_id: ProjectId,
        revision_id: RevisionId,
        owner_binding: String,
        schema: SchemaRef,
        side: String,
    ) -> (r: Self)
        ensures
            r.view_id == view_id,
            r.project_id == project_id,
            r.revision_id == revision_id,
            r.owner_binding == owner_binding,
            r.schema == schema,
            r.side == side,
            !r.closed,
            r.handles@.len() == 0,
    {
        ViewLease { view_id, project_id, revision_id, owner_binding, schema, side, closed: false, handles: Vec::new() }
    }

    /// The lease serves its own binding on its own project while it is open.
    pub open spec fn serves(self, project: ProjectId, binding: Seq<char>) -> bool {
        self.project_id == project && self.owner_binding@ == binding && !self.closed
    }

    pub fn check_access(&self, project: ProjectId, binding: &str) -> (r: Result<(), AppError>)
        ensures
            self.serves(project, binding@) ==> r is Ok,
            !self.serves(project, binding@) ==> refused(r, ("pool_error"@, "view is closed or belongs to another binding"@)),
    {
        if self.project_id == project && str_eq(self.owner_binding.as_str(), binding) && !self.closed {
            Ok(())
        } else {
            Err(pool_error("view is closed or belongs to another binding"))
        }
    }

    /// Closes the lease; nothing else changes.
    pub fn close(&mut self)
        ensures
            final(self).closed,
            final(self).view_id == old(self).view_id,
            final(self).project_id == old(self).project_id,
            final(self).revision_id == old(self).revision_id,
            final(self).owner_binding == old(self).owner_binding,
            final(self).schema == old(self).schema,
            final(self).side == old(self).side,
            final(self).handles == old(self).handles,
    {
        self.closed = true;
    }

    /// Records the handle of a page the lease published.
    pub fn record_handle(&mut self, handle: String)
        ensures
            final(self).handles@ == old(self).handles@.push(handle),
            final(self).closed == old(self).closed,
            final(self).view_id == old(self).view_id,
            final(self).project_id == old(self).project_id,
            final(self).revision_id == old(self).revision_id,
            final(self).owner_binding == old(self).owner_binding,
            final(self).schema == old(self).schema,
            final(self).side == old(self).side,
    {
        self.handles.push(handle);
    }

    /// The document a view reads: the source document for the source side,
    /// the target document otherwise.
    pub fn document_index(&self) -> (r: usize)
        ensures
            r == (if self.side@ == "source"@ { 0usize } else { 1usize }),
    {
        if str_eq(self.side.as_str(), "source") { 0 } else { 1 }
    }
}

/// The handles that open leases of live bindings keep from collection, lease by lease.
pub open spec fn view_pins(views: Seq<ViewLease>, live: Seq<Seq<char>>) -> Seq<Seq<char>>
    decreases views.len(),
{
    if views.len() == 0 {
        Seq::empty()
    } else {
        let last = views.last();
        view_pins(views.drop_last(), live) + if !last.closed && live.contains(last.owner_binding@) {
            views_of(last.handles@)
        } else {
            Seq::empty()
        }
    }
}

/// The handles pinned by the leases still open for a live binding.
pub fn pinned_handles(views: &Vec<ViewLease>, live: &Vec<String>) -> (r: Vec<String>)
    ensures
        views_of(r@) == view_pins(views@, views_of(live@)),
{
    let mut out: Vec<String> = Vec::new();
    let mut i: usize = 0;
    while i < views.len()
        invariant
            0 <= i <= views@.len(),
            views_of(out@) == view_pins(views@.take(i as int), views_of(live@)),
        decreases views@.len() - i,
    {
        let v = &views[i];
        assert(views@.take(i as int + 1).drop_last() == views@.take(i as int));
        assert(views@.take(i as int + 1).last() == views@[i as int]);
        let ghost before = out@;
        if !v.closed && contains_string(live, v.owner_binding.as_str()) {
            let mut k: usize = 0;
            while k < v.handles.len()
                invariant
                    0 <= k <= v.handles@.len(),
                    0 <= i < views@.len(),
                    *v == views@[i as int],
                    views_of(out@) == views_of(before) + views_of(v.handles@.take(k as int)),
                decreases v.handles@.len() - k,
            {
                let ghost prev = out@;
                let h = v.handles[k].clone();
                out.push(h);
                assert(out@ == prev.push(v.handles@[k as int]));
                assert(views_of(out@) =~= views_of(prev).push(v.handles@[k as int]@));
                assert(v.handles@.take(k as int + 1) == v.handles@.take(k as int).push(v.handles@[k as int]));
                assert(views_of(out@) =~= views_of(before) + views_of(v.handles@.take(k as int + 1)));
                k += 1;
            }
            assert(v.handles@.take(v.handles@.len() as int) == v.handles@);
        } else {
            assert(views_of(out@) =~= views_of(before) + Seq::<Seq<char>>::empty());
        }
        i += 1;
    }
    assert(views@.take(views@.len() as int) == views@);
    out
}

/// Whether posting `i` is of the term asked for; with no term, every posting is.
pub open spec fn term_matches(terms: Seq<Option<String>>, term: Option<Seq<char>>, i: int) -> bool {
    match term {
        None => true,
        Some(t) => in_group(terms, t, i),
    }
}

/// How many of the first `i` postings are of the term asked for.
pub open spec fn term_rank(terms: Seq<Option<String>>, term: Option<Seq<char>>, i: int) -> int {
    match term {
        None => i,
        Some(t) => rank(terms, t, i),
    }
}

/// Where the next page of `total` items starts after the page at `cursor`
/// of `lim` items, if any remain.
pub open spec fn spec_next_page(cursor: int, lim: int, total: int) -> Option<usize> {
    let end = if cursor + lim < total { cursor + lim } else { total };
    if end < total { Some(end as usize) } else { None }
}

pub open spec fn opt_term(term: Option<&str>) -> Option<Seq<char>> {
    match term {
        Some(t) => Some(t@),
        None => None,
    }
}

/// A page of an index's postings: the positions of the postings of the
/// term asked for (all postings when none is) whose rank among them lies in
/// `cursor .. cursor + limit` (the limit as for any pool read), in order;
/// how many postings are of the term; and where the next page starts.
pub fn index_window(terms: &Vec<Option<String>>, term: Option<&str>, cursor: usize, limit: Option<u64>) -> (r: (Vec<usize>, usize, Option<usize>))
    ensures
        r.1 == term_rank(terms@, opt_term(term), terms@.len() as int),
        forall|k: int| 0 <= k < r.0@.len() ==> {
            let i = #[trigger] r.0@[k] as int;
            &&& 0 <= i < terms@.len()
            &&& term_matches(terms@, opt_term(term), i)
            &&& term_rank(terms@, opt_term(term), i) == cursor + k
        },
        r.0@.len() == ({
            let available = r.1 - cursor;
            if available < 0 { 0 } else if available > spec_pool_limit(limit) { spec_pool_limit(limit) } else { available }
        }),
        r.2 == spec_next_page(cursor as int, spec_pool_limit(limit), r.1 as int),
{
    let lim = pool_limit(limit);
    let (positions, total) = match term {
        Some(t) => group_window(terms, t, cursor, lim),
        None => {
            let total = terms.len();
            let mut positions: Vec<usize> = Vec::new();
            let mut p: usize = cursor;
            while p < total && positions.len() < lim
                invariant
                    cursor <= p,
                    p <= total || p == cursor,
                    total == terms@.len(),
                    positions@.len() == p - cursor,
                    positions@.len() <= lim,
                    forall|k: int| 0 <= k < positions@.len() ==> #[trigger] positions@[k] == cursor + k,
                decreases total - p,
            {
                positions.push(p);
                p += 1;
            }
            assert(positions@.len() == ({
                let available = total - cursor;
                if available < 0 { 0 } else if available > lim { lim as int } else { available }
            }));
            (positions, total)
        },
    };
    assert(served_limit(lim) == lim);
    let end: usize = if cursor >= total || total - cursor <= lim { total } else { cursor + lim };
    let next = if end < total { Some(end) } else { None };
    (positions, total, next)
}

/// What a pool method does.
#[derive(Clone, Copy, Debug, PartialEq, Eq, Structural)]
pub enum PoolRoute {
    CollectCache,
    ReadIndexPartition,
    OpenView,
    CloseView,
    ReadSegment,
    ReadAlignment,
    ReadAnnotation,
    ReadBatch,
    /// Any other name: it is refused as an unknown pool method once its
    /// view has been checked.
    Unknown,
}

pub open spec fn pool_route_of(method: Seq<char>) -> PoolRoute {
    if method == "pool.collect_cache"@ { PoolRoute::CollectCache }
    else if method == "pool.read_index_partition"@ { PoolRoute::ReadIndexPartition }
    else if method == "pool.open_view"@ { PoolRoute::OpenView }
    else if method == "pool.close_view"@ { PoolRoute::CloseView }
    else if method == "pool.read_segment"@ { PoolRoute::ReadSegment }
    else if method == "pool.read_alignment"@ { PoolRoute::ReadAlignment }
    else if method == "pool.read_annotation"@ { PoolRoute::ReadAnnotation }
    else if method == "pool.read_batch"@ || method == "pool.read_slice"@ { PoolRoute::ReadBatch }
    else { PoolRoute::Unknown }
}

/// Chooses what a pool method does.
pub fn pool_route(method: &str) -> (r: PoolRoute)
    ensures
        r == pool_route_of(method@),
{
    if str_eq(method, "pool.collect_cache") { PoolRoute::CollectCache }
    else if str_eq(method, "pool.read_index_partition") { PoolRoute::ReadIndexPartition }
    else if str_eq(method, "pool.open_view") { PoolRoute::OpenView }
    else if str_eq(method, "pool.close_view") { PoolRoute::CloseView }
    else if str_eq(method, "pool.read_segment") { PoolRoute::ReadSegment }
    else if str_eq(method, "pool.read_alignment") { PoolRoute::ReadAlignment }
    else if str_eq(method, "pool.read_annotation") { PoolRoute::ReadAnnotation }
    else if str_eq(method, "pool.read_batch") || str_eq(method, "pool.read_slice") { PoolRoute::ReadBatch }
    else { PoolRoute::Unknown }
}

impl PoolRoute {
    /// Whether the method reads through an open view lease of the caller.
    pub open spec fn spec_needs_view(self) -> bool {
        !(self == PoolRoute::CollectCache || self == PoolRoute::ReadIndexPartition || self == PoolRoute::OpenView)
    }

    pub fn needs_view(&self) -> (r: bool)
        ensures
            r == self.spec_needs_view(),
    {
        match self {
            PoolRoute::CollectCache | PoolRoute::ReadIndexPartition | PoolRoute::OpenView => false,
            _ => true,
        }
    }
}

/// The refusal of a pool call that lacks a named field.
pub fn missing_field(name: &str) -> (r: AppError)
    ensures
        r.code@ == "pool_error"@,
        r.message@ == name@ + " required"@,
{
    let mut message = name.to_owned();
    append_str(&mut message, " required");
    AppError { code: "pool_error".to_owned(), message }
}

/// The refusal of a pool method name that is not served.
pub fn unknown_pool_method() -> (r: AppError)
    ensures
        r.code@ == "pool_error"@,
        r.message@ == "unknown pool method"@,
{
    pool_error("unknown pool method")
}

} // verus!

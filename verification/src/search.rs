//! The host's project search rules: which search specifications are valid,
//! when a search must be re-announced, and how result pages are cut.
use vstd::prelude::*;
use crate::application::AppError;
use crate::ids::{DocumentId, RevisionId};
use crate::strings::str_eq;

verus! {

/// The largest page of search hits served at once.
pub const MAX_SEARCH_PAGE: usize = 200;
/// How many search sessions the host keeps before it starts over.
pub const MAX_SEARCH_SESSIONS: usize = 32;
/// The page size used when a caller names none.
pub const DEFAULT_SEARCH_PAGE: usize = 50;

/// What to search for.
#[derive(Clone, Debug)]
pub struct SearchSpec {
    pub query: String,
    pub regex: bool,
    pub case_sensitive: bool,
    pub language_id: Option<String>,
    pub document_ids: Option<Vec<DocumentId>>,
}

/// The message the regular-expression engine refuses a pattern with, or
/// `None` when it accepts it.
pub uninterp spec fn regex_build_error(pattern: Seq<char>, case_insensitive: bool) -> Option<Seq<char>>;

/// Builds the pattern with `regex::RegexBuilder::new(..).case_insensitive(..).build()`
/// and renders a refusal with `to_string`; the outcome is named `regex_build_error`.
#[verifier::external_body]
fn build_regex(pattern: &str, case_insensitive: bool) -> (r: Option<String>)
    ensures
        match regex_build_error(pattern@, case_insensitive) {
            None => r is None,
            Some(m) => r matches Some(x) && x@ == m,
        },
{
    match regex::RegexBuilder::new(pattern).case_insensitive(case_insensitive).build() {
        Ok(_) => None,
        Err(error) => Some(error.to_string()),
    }
}

/// A search specification is valid unless it asks for a regular expression
/// that does not build (case-insensitively when the search is).
pub fn validate_search_spec(spec: &SearchSpec) -> (r: Result<(), AppError>)
    ensures
        !spec.regex ==> r is Ok,
        spec.regex ==> match regex_build_error(spec.query@, !spec.case_sensitive) {
            None => r is Ok,
            Some(m) => r matches Err(e) && e.code@ == "invalid_regex"@ && e.message@ == m,
        },
{
    if spec.regex {
        if let Some(message) = build_regex(spec.query.as_str(), !spec.case_sensitive) {
            return Err(AppError { code: "invalid_regex".to_owned(), message });
        }
    }
    Ok(())
}

pub open spec fn opt_text(o: Option<String>) -> Option<Seq<char>> {
    match o {
        Some(s) => Some(s@),
        None => None,
    }
}

pub open spec fn opt_ids(o: Option<Vec<DocumentId>>) -> Option<Seq<DocumentId>> {
    match o {
        Some(v) => Some(v@),
        None => None,
    }
}

/// Whether two specifications search differently.
pub open spec fn spec_differs(a: SearchSpec, b: SearchSpec) -> bool {
    ||| a.query@ != b.query@
    ||| a.regex != b.regex
    ||| a.case_sensitive != b.case_sensitive
    ||| opt_text(a.language_id) != opt_text(b.language_id)
    ||| opt_ids(a.document_ids) != opt_ids(b.document_ids)
}

fn same_ids(a: &Vec<DocumentId>, b: &Vec<DocumentId>) -> (r: bool)
    ensures
        r == (a@ == b@),
{
    if a.len() != b.len() {
        return false;
    }
    let mut i: usize = 0;
    while i < a.len()
        invariant
            0 <= i <= a@.len() == b@.len(),
            forall|j: int| 0 <= j < i ==> a@[j] == b@[j],
        decreases a@.len() - i,
    {
        if a[i].as_u128() != b[i].as_u128() {
            proof {
                crate::ids::document_id_identity(a@[i as int], b@[i as int]);
            }
            return false;
        }
        proof {
            crate::ids::document_id_identity(a@[i as int], b@[i as int]);
        }
        i += 1;
    }
    assert(a@ =~= b@);
    true
}

/// Whether a new specification must be announced as a change of search.
pub fn spec_changed(old: &SearchSpec, new: &SearchSpec) -> (r: bool)
    ensures
        r == spec_differs(*old, *new),
{
    if !str_eq(old.query.as_str(), new.query.as_str()) || old.regex != new.regex || old.case_sensitive != new.case_sensitive {
        return true;
    }
    let languages_differ = match (&old.language_id, &new.language_id) {
        (Some(a), Some(b)) => !str_eq(a.as_str(), b.as_str()),
        (None, None) => false,
        _ => true,
    };
    if languages_differ {
        return true;
    }
    match (&old.document_ids, &new.document_ids) {
        (Some(a), Some(b)) => !same_ids(a, b),
        (None, None) => false,
        _ => true,
    }
}

/// Refuses a search that expected another revision than the current one.
pub fn check_expected_revision(expected: Option<RevisionId>, current: RevisionId) -> (r: Result<(), AppError>)
    ensures
        r is Ok <==> !(expected matches Some(v) && v != current),
        r matches Err(e) ==> e.code@ == "stale_revision"@ && e.message@ == "Search execute expected an earlier project revision."@,
{
    match expected {
        Some(v) => {
            if v != current {
                return Err(AppError::new("stale_revision", "Search execute expected an earlier project revision."));
            }
            Ok(())
        },
        None => Ok(()),
    }
}

/// Whether the host forgets every earlier search session before keeping a new one.
pub fn sessions_full(kept: usize) -> (r: bool)
    ensures
        r == (kept >= MAX_SEARCH_SESSIONS),
{
    kept >= MAX_SEARCH_SESSIONS
}

/// One page of hits: positions `start..end` of the session's hits, and where
/// the next page starts when hits remain.
#[derive(Clone, Copy, Debug, PartialEq, Eq, Structural)]
pub struct PageWindow {
    pub start: usize,
    pub end: usize,
    pub next_cursor: Option<usize>,
}

/// The page size actually served: the requested size, at least one and at most the page limit.
pub open spec fn served_size(requested: usize) -> int {
    if requested < 1 { 1 } else if requested > MAX_SEARCH_PAGE { MAX_SEARCH_PAGE as int } else { requested as int }
}

/// The page of `total` hits that starts at `cursor`.
pub open spec fn spec_page(cursor: usize, requested: usize, total: usize) -> PageWindow {
    let end = if cursor + served_size(requested) < total { cursor + served_size(requested) } else { total as int };
    PageWindow {
        start: if cursor < total { cursor } else { total },
        end: end as usize,
        next_cursor: if end < total { Some(end as usize) } else { None },
    }
}

/// Cuts a page of hits starting at `cursor`.
pub fn page_window(cursor: usize, requested: usize, total: usize) -> (r: PageWindow)
    ensures
        r == spec_page(cursor, requested, total),
{
    let size = if requested < 1 { 1 } else if requested > MAX_SEARCH_PAGE { MAX_SEARCH_PAGE } else { requested };
    let end = match cursor.checked_add(size) {
        Some(e) => if e < total { e } else { total },
        None => total,
    };
    PageWindow {
        start: if cursor < total { cursor } else { total },
        end,
        next_cursor: if end < total { Some(end) } else { None },
    }
}

/// Paging from the first hit, each page starting where the previous one said
/// the next begins, serves every hit once and in order: a page never goes
/// past the hits, holds at most the page limit, ends where the next begins,
/// and the last page ends at the last hit.
pub proof fn pages_tile_the_hits(cursor: usize, requested: usize, total: usize)
    requires
        cursor <= total,
    ensures
        ({
            let p = spec_page(cursor, requested, total);
            &&& p.start == cursor
            &&& cursor <= p.end <= total
            &&& p.end - p.start <= MAX_SEARCH_PAGE
            &&& p.end > p.start || total == cursor
            &&& match p.next_cursor {
                Some(n) => n == p.end && n < total,
                None => p.end == total,
            }
        }),
{
}

} // verus!

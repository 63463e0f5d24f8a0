//! Shared application-host types and the host's method-scoping policies.
use vstd::prelude::*;
use crate::methods::{research_method, lookup, research_table};
use crate::strings::{chars_of, str_eq};

verus! {

/// The version of the application contract shared by desktop, agent and bridge.
pub const APPLICATION_CONTRACT_VERSION: &'static str = "1.0";

/// An error the host answers with: a stable code and a message.
#[derive(Clone, Debug, PartialEq, Eq)]
pub struct AppError {
    pub code: String,
    pub message: String,
}

impl AppError {
    pub fn new(code: &str, message: &str) -> (r: Self)
        ensures r.code@ == code@, r.message@ == message@,
    {
        AppError { code: code.to_owned(), message: message.to_owned() }
    }

    /// An `invalid_request` error.
    pub fn invalid(message: &str) -> (r: Self)
        ensures r.code@ == "invalid_request"@, r.message@ == message@,
    {
        Self::new("invalid_request", message)
    }

    /// The error for a call that needs an open project when none is open.
    pub fn unavailable() -> (r: Self)
        ensures r.code@ == "project_unavailable"@, r.message@ == "No local project is open."@,
    {
        Self::new("project_unavailable", "No local project is open.")
    }

    /// `code: message`, as the error is displayed.
    pub fn describe(&self) -> (r: String)
        ensures r@ == self.code@ + ": "@ + self.message@,
    {
        let mut s = self.code.clone();
        crate::strings::append_str(&mut s, ": ");
        crate::strings::append_str(&mut s, self.message.as_str());
        s
    }
}

/// The result is the refusal with the given code and message.
pub open spec fn refused<T>(r: Result<T, AppError>, p: (Seq<char>, Seq<char>)) -> bool {
    r matches Err(e) && e.code@ == p.0 && e.message@ == p.1
}

/// A file of a resource bundle or plugin package, with its expected digest and size.
#[derive(Clone, Debug, PartialEq, Eq)]
pub struct ResourceFile {
    pub path: String,
    pub sha256: String,
    pub bytes: u64,
    pub executable: bool,
    pub url: Option<String>,
}

/// A selected text range in UTF-16 code units.
#[derive(Clone, Debug, PartialEq, Eq)]
pub struct TextRange {
    pub start_utf16: u64,
    pub end_utf16: u64,
}

/// The UI context frozen when a request is sent.
#[derive(Clone, Debug, PartialEq, Eq)]
pub struct ContextSnapshot {
    pub tab: String,
    pub mode: Option<String>,
    pub project_id: Option<String>,
    pub revision_id: Option<String>,
    pub binding_id: Option<String>,
    pub window_focused: bool,
    pub focused_control: Option<String>,
    pub selected_text: String,
    pub segment_ids: Vec<String>,
    pub alignment_ids: Vec<String>,
    pub text_range: Option<TextRange>,
    pub captured_at: String,
}

/// The current UTC time in RFC 3339 form, from `chrono::Utc::now` and
/// `DateTime::to_rfc3339`. It depends on the clock; nothing is promised about it.
#[verifier::external_body]
fn now_rfc3339() -> String {
    chrono::Utc::now().to_rfc3339()
}

impl Default for ContextSnapshot {
    /// The review tab with nothing selected, captured now.
    fn default() -> (r: Self)
        ensures
            r.tab@ == "review"@,
            r.mode is None,
            r.project_id is None,
            r.revision_id is None,
            r.binding_id is None,
            !r.window_focused,
            r.focused_control is None,
            r.selected_text@.len() == 0,
            r.segment_ids@.len() == 0,
            r.alignment_ids@.len() == 0,
            r.text_range is None,
    {
        ContextSnapshot {
            tab: "review".to_owned(),
            mode: None,
            project_id: None,
            revision_id: None,
            binding_id: None,
            window_focused: false,
            focused_control: None,
            selected_text: String::new(),
            segment_ids: Vec::new(),
            alignment_ids: Vec::new(),
            text_range: None,
            captured_at: now_rfc3339(),
        }
    }
}

/// Research methods are the table's methods and the `research.call` envelope.
pub open spec fn spec_is_research_method(method: Seq<char>) -> bool {
    method == "research.call"@ || lookup(research_table(), method) is Some
}

pub fn is_research_method(method: &str) -> (r: bool)
    ensures r == spec_is_research_method(method@),
{
    str_eq(method, "research.call") || research_method(method).is_some()
}

pub open spec fn features_prefix() -> Seq<char> {
    seq!['f', 'e', 'a', 't', 'u', 'r', 'e', 's', '.']
}

/// Catalog methods that any client may call without a project.
pub open spec fn is_catalog_method(method: Seq<char>) -> bool {
    ||| method == "capabilities.get"@
    ||| method == "slots.list"@
    ||| method == "schemas.list"@
    ||| method == "schemas.get"@
    ||| method == "operators.list"@
    ||| (method.len() >= 9 && method.take(9) == features_prefix())
}

/// Session and UI methods that never touch project state directly.
pub open spec fn is_session_method(method: Seq<char>) -> bool {
    ||| method == "app.describe"@
    ||| method == "app.bind_session"@
    ||| method == "search.validate_regex"@
    ||| method == "ui.get_context"@
    ||| method == "ui.get_selection"@
    ||| method == "ui.publish_context"@
    ||| method == "ui.navigate"@
    ||| method == "ui.ack"@
    ||| method == "operation.get"@
    ||| method == "operation.cancel"@
}

/// Whether a call is scoped to the bound project: research methods as their
/// table says, the `research.call` envelope, catalog and session methods not,
/// every other method yes.
pub open spec fn spec_scoped_method(method: Seq<char>) -> bool {
    match lookup(research_table(), method) {
        Some(d) => d.1,
        None => if method == "research.call"@ || is_catalog_method(method) {
            false
        } else {
            !is_session_method(method)
        },
    }
}

fn has_features_prefix(method: &str) -> (r: bool)
    ensures r == (method@.len() >= 9 && method@.take(9) == features_prefix()),
{
    let cs = chars_of(method);
    let prefix = vec!['f', 'e', 'a', 't', 'u', 'r', 'e', 's', '.'];
    if cs.len() < 9 {
        return false;
    }
    let mut k: usize = 0;
    while k < 9
        invariant
            0 <= k <= 9,
            cs@ == method@,
            cs@.len() >= 9,
            prefix@ == features_prefix(),
            forall|j: int| 0 <= j < k ==> cs@[j] == prefix@[j],
        decreases 9 - k,
    {
        if cs[k] != prefix[k] {
            assert(cs@.take(9)[k as int] != features_prefix()[k as int]);
            return false;
        }
        k += 1;
    }
    assert(cs@.take(9) =~= features_prefix());
    true
}

pub fn scoped_method(method: &str) -> (r: bool)
    ensures r == spec_scoped_method(method@),
{
    if let Some(descriptor) = research_method(method) {
        return descriptor.requires_binding;
    }
    if str_eq(method, "research.call") {
        return false;
    }
    if str_eq(method, "capabilities.get") || str_eq(method, "slots.list") || str_eq(method, "schemas.list")
        || str_eq(method, "schemas.get") || str_eq(method, "operators.list") || has_features_prefix(method) {
        return false;
    }
    !(str_eq(method, "app.describe") || str_eq(method, "app.bind_session") || str_eq(method, "search.validate_regex")
        || str_eq(method, "ui.get_context") || str_eq(method, "ui.get_selection") || str_eq(method, "ui.publish_context")
        || str_eq(method, "ui.navigate") || str_eq(method, "ui.ack") || str_eq(method, "operation.get")
        || str_eq(method, "operation.cancel"))
}

/// Methods whose replay under the same request id returns the first outcome.
pub open spec fn spec_retryable_method(method: Seq<char>) -> bool {
    ||| method == "research.start"@
    ||| method == "research.confirm"@
    ||| method == "research.merge_groups"@
    ||| method == "pipeline.start"@
    ||| method == "pipeline.save_method_v2"@
    ||| method == "ui.navigate"@
    ||| method == "ui.reveal"@
    ||| method == "ui.ack"@
    ||| method == "search.set_spec"@
    ||| method == "proposal.preview_replace"@
    ||| method == "proposal.approve"@
    ||| method == "proposal.reject"@
}

pub fn retryable_method(method: &str) -> (r: bool)
    ensures r == spec_retryable_method(method@),
{
    if str_eq(method, "research.start") || str_eq(method, "research.confirm") || str_eq(method, "research.merge_groups")
        || str_eq(method, "pipeline.start") || str_eq(method, "pipeline.save_method_v2") {
        return true;
    }
    str_eq(method, "ui.navigate") || str_eq(method, "ui.reveal") || str_eq(method, "ui.ack")
        || str_eq(method, "search.set_spec") || str_eq(method, "proposal.preview_replace")
        || str_eq(method, "proposal.approve") || str_eq(method, "proposal.reject")
}

/// The message shown when the desktop's kernel state lock is poisoned.
pub fn lock_error() -> (r: String)
    ensures r@ == "The local Kernel state is unavailable; restart Jueming Aligner."@,
{
    "The local Kernel state is unavailable; restart Jueming Aligner.".to_owned()
}

/// The kind of one component of a path, as `std::path::Component` tells them apart.
#[derive(Clone, Copy, Debug, PartialEq, Eq, Structural)]
pub enum PathPart {
    /// A Windows prefix such as `C:`.
    Prefix,
    /// The root directory.
    RootDir,
    /// `.`
    CurDir,
    /// `..`
    ParentDir,
    /// An ordinary name.
    Normal,
}

/// The kinds of the components of a path, in order, as
/// `std::path::Path::components` parses it on this platform.
pub uninterp spec fn path_parts_of(path: Seq<char>) -> Seq<PathPart>;

/// Parses a path with `std::path::Path::components` and returns the kind of
/// each component, in order; the platform's path syntax decides, and the
/// result is named `path_parts_of`.
#[verifier::external_body]
fn path_parts(path: &str) -> (r: Vec<PathPart>)
    ensures
        r@ == path_parts_of(path@),
{
    std::path::Path::new(path).components().map(|c| match c {
        std::path::Component::Prefix(_) => PathPart::Prefix,
        std::path::Component::RootDir => PathPart::RootDir,
        std::path::Component::CurDir => PathPart::CurDir,
        std::path::Component::ParentDir => PathPart::ParentDir,
        std::path::Component::Normal(_) => PathPart::Normal,
    }).collect()
}

/// Every component of the path is an ordinary name: no prefix, root, `.` or `..`.
pub open spec fn only_normal_components(path: Seq<char>) -> bool {
    forall|i: int| 0 <= i < path_parts_of(path).len() ==> #[trigger] path_parts_of(path)[i] == PathPart::Normal
}

/// A resource path that stays inside its package: non-empty, relative, and
/// without `.` or `..` components.
pub fn safe_relative(path: &str) -> (r: Result<String, String>)
    ensures
        (path@.len() == 0 || !only_normal_components(path@)) ==> (r matches Err(m)
            && m@ == "unsafe resource path"@),
        (path@.len() > 0 && only_normal_components(path@)) ==> (r matches Ok(p) && p@ == path@),
{
    if path.is_empty() {
        return Err("unsafe resource path".to_owned());
    }
    let parts = path_parts(path);
    let mut i: usize = 0;
    while i < parts.len()
        invariant
            0 <= i <= parts@.len(),
            parts@ == path_parts_of(path@),
            forall|j: int| 0 <= j < i ==> #[trigger] parts@[j] == PathPart::Normal,
        decreases parts@.len() - i,
    {
        if parts[i] != PathPart::Normal {
            return Err("unsafe resource path".to_owned());
        }
        i += 1;
    }
    Ok(path.to_owned())
}

/// Where device-scoped settings are stored, outside any `.jm` project.
pub const SETTINGS_STORE_PATH: &'static str = "settings.json";
/// The key under which the settings object is stored.
pub const SETTINGS_KEY: &'static str = "app-settings";

} // verus!

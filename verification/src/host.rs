//! The application host's session bookkeeping: which client session is bound
//! to which project revision, the retry cache that makes a request id
//! idempotent, and the checks every dispatched call passes first.
use vstd::prelude::*;
use crate::application::{refused, retryable_method, scoped_method, spec_retryable_method, spec_scoped_method, AppError, ContextSnapshot};
use crate::ids::{decimal, parse_uuid, spec_uuid_text, uuid_parse, AlignmentId, CommandId, OperationId, ProjectId, RevisionId, SegmentId};
use crate::methods::{lookup, research_method, research_table};
use crate::registry::{evict, fresh_insert_is_held, fresh_key_outlasts_later_inserts, insert_all, BoundedMap};
use crate::strings::{append_str, starts_with, str_eq};

verus! {

/// How many answered requests the retry cache remembers.
pub const MAX_RETRY_CACHE: usize = 256;
/// How many session bindings the host remembers.
pub const MAX_BINDINGS: usize = 128;
/// How many native UI actions may wait for acknowledgement at once.
pub const MAX_UI_ACTIONS: usize = 64;

/// The project revision a session was bound to.
#[derive(Clone, Copy, Debug, PartialEq, Eq, Structural)]
pub struct Binding {
    pub project_id: ProjectId,
    pub revision_id: RevisionId,
}

/// The refusal (code and message) a binding check answers with, or `None`
/// when the binding is current.
pub open spec fn binding_problem(
    bindings: Map<Seq<char>, Binding>,
    binding_id: Option<Seq<char>>,
    current: Option<Binding>,
) -> Option<(Seq<char>, Seq<char>)> {
    match binding_id {
        None => Some(("binding_required"@, "This operation requires a current project binding."@)),
        Some(id) => if !bindings.dom().contains(id) {
            Some(("stale_binding"@, "The project changed; bind a new session."@))
        } else {
            match current {
                None => Some(("project_unavailable"@, "No local project is open."@)),
                Some(c) => if bindings[id] != c {
                    Some(("stale_revision"@, "The bound revision is no longer current; rebind and review the latest projection."@))
                } else {
                    None
                },
            }
        },
    }
}

pub open spec fn opt_str(o: Option<&str>) -> Option<Seq<char>> {
    match o {
        Some(s) => Some(s@),
        None => None,
    }
}

/// Checks that a call names a binding and that the binding is to the project
/// revision that is current now.
pub fn ensure_binding(bindings: &BoundedMap<Binding>, binding_id: Option<&str>, current: Option<Binding>) -> (r: Result<Binding, AppError>)
    requires
        bindings.wf(),
    ensures
        match binding_problem(bindings.map(), opt_str(binding_id), current) {
            None => r == Ok::<Binding, AppError>(bindings.map()[binding_id->0@]),
            Some(p) => refused(r, p),
        },
{
    let id = match binding_id {
        Some(id) => id,
        None => return Err(AppError::new("binding_required", "This operation requires a current project binding.")),
    };
    let binding = match bindings.get(id) {
        Some(b) => *b,
        None => return Err(AppError::new("stale_binding", "The project changed; bind a new session.")),
    };
    let c = match current {
        Some(c) => c,
        None => return Err(AppError::unavailable()),
    };
    if binding.project_id != c.project_id || binding.revision_id != c.revision_id {
        return Err(AppError::new(
            "stale_revision",
            "The bound revision is no longer current; rebind and review the latest projection.",
        ));
    }
    Ok(binding)
}

/// Whether the revision a client expects disagrees with the current one.
pub open spec fn expectation_stale(current: Binding, project: Option<ProjectId>, revision: Option<RevisionId>) -> bool {
    (project matches Some(p) && p != current.project_id) || (revision matches Some(v) && v != current.revision_id)
}

/// Binds a new session to the current project revision under a fresh
/// operation identifier, forgetting the oldest bindings beyond the capacity.
/// A client that says which project or revision it expects is refused when
/// the current one differs.
pub fn bind_session(
    bindings: &mut BoundedMap<Binding>,
    current: Option<Binding>,
    expected_project: Option<ProjectId>,
    expected_revision: Option<RevisionId>,
) -> (r: Result<(String, Binding), AppError>)
    requires
        old(bindings).wf(),
    ensures
        final(bindings).wf(),
        final(bindings).capacity() == old(bindings).capacity(),
        match current {
            None => refused(r, ("project_unavailable"@, "No local project is open."@)),
            Some(c) => if expectation_stale(c, expected_project, expected_revision) {
                refused(r, ("stale_revision"@, "The project changed before this session could be bound; reload the projection."@))
            } else {
                r matches Ok((id, b)) && b == c && (exists|v: u128| id@ == spec_uuid_text(v)) && (final(bindings).map(), final(bindings).order()) == evict(
                    old(bindings).map().insert(id@, c),
                    old(bindings).order().push(id@),
                    old(bindings).capacity(),
                )
            },
        },
        r is Err ==> final(bindings).map() == old(bindings).map() && final(bindings).order() == old(bindings).order(),
{
    let c = match current {
        Some(c) => c,
        None => return Err(AppError::unavailable()),
    };
    let id = OperationId::new().text();
    let stale_project = match expected_project {
        Some(p) => p != c.project_id,
        None => false,
    };
    let stale_revision = match expected_revision {
        Some(v) => v != c.revision_id,
        None => false,
    };
    if stale_project || stale_revision {
        return Err(AppError::new(
            "stale_revision",
            "The project changed before this session could be bound; reload the projection.",
        ));
    }
    bindings.insert(id.clone(), c);
    Ok((id, c))
}

/// A session just bound, under an identifier not listed before, passes the
/// binding check while the revision it was bound to stays current.
pub proof fn bound_session_is_current(
    bindings: Map<Seq<char>, Binding>,
    order: Seq<Seq<char>>,
    capacity: nat,
    id: Seq<char>,
    current: Binding,
)
    requires
        capacity >= 1,
        !order.contains(id),
    ensures
        binding_problem(evict(bindings.insert(id, current), order.push(id), capacity).0, Some(id), Some(current)) is None,
{
    fresh_insert_is_held(bindings, order, capacity, id, current);
}

/// Once the open project changes and the bindings are cleared, every earlier
/// session is refused as stale and must bind again.
pub proof fn project_switch_invalidates_sessions(id: Seq<char>, current: Option<Binding>)
    ensures
        binding_problem(Map::empty(), Some(id), current) == Some(("stale_binding"@, "The project changed; bind a new session."@)),
{
}

/// When the host itself advances the project to a new revision and moves
/// every binding along, each session bound to that project stays current.
pub proof fn revision_advance_keeps_sessions(
    before: Map<Seq<char>, Binding>,
    after: Map<Seq<char>, Binding>,
    id: Seq<char>,
    project_id: ProjectId,
    revision_id: RevisionId,
)
    requires
        after.dom() == before.dom(),
        forall|k: Seq<char>| #[trigger] after.dom().contains(k) ==> after[k] == (Binding {
            project_id: before[k].project_id,
            revision_id,
        }),
        before.dom().contains(id),
        before[id].project_id == project_id,
    ensures
        binding_problem(after, Some(id), Some(Binding { project_id, revision_id })) is None,
{
    assert(after.dom().contains(id));
}

/// Takes in the outcome of a canonical mutation. A mutation that returns
/// another project is refused. When the revision moved, every binding moves
/// to the new revision and the native context forgets its selection; the
/// answer says whether the revision moved.
pub fn apply_mutation(
    bindings: &mut BoundedMap<Binding>,
    context: &mut Option<ContextSnapshot>,
    current: Binding,
    next: Binding,
) -> (r: Result<bool, AppError>)
    requires
        old(bindings).wf(),
    ensures
        final(bindings).wf(),
        final(bindings).capacity() == old(bindings).capacity(),
        next.project_id != current.project_id ==> (refused(r, ("project_mismatch"@, "A mutation returned a different project."@))
            && final(bindings).map() == old(bindings).map() && *final(context) == *old(context)),
        next.project_id == current.project_id ==> r == Ok::<bool, AppError>(next.revision_id != current.revision_id),
        next.project_id == current.project_id && next.revision_id == current.revision_id ==> final(bindings).map()
            == old(bindings).map() && *final(context) == *old(context),
        next.project_id == current.project_id && next.revision_id != current.revision_id ==> {
            &&& final(bindings).map().dom() == old(bindings).map().dom()
            &&& forall|k: Seq<char>| #[trigger] final(bindings).map().dom().contains(k) ==> final(bindings).map()[k] == (Binding {
                project_id: old(bindings).map()[k].project_id,
                revision_id: next.revision_id,
            })
            &&& match *old(context) {
                None => *final(context) is None,
                Some(c) => (*final(context)) matches Some(n) && context_after_revision(c, n, next.revision_id),
            }
        },
{
    if next.project_id != current.project_id {
        return Err(AppError::new("project_mismatch", "A mutation returned a different project."));
    }
    if next.revision_id == current.revision_id {
        return Ok(false);
    }
    bindings.set_revisions(next.revision_id);
    if let Some(c) = context {
        c.revision_id = Some(next.revision_id.text());
        c.segment_ids = Vec::new();
        c.alignment_ids = Vec::new();
        c.selected_text = String::new();
        c.text_range = None;
        c.window_focused = false;
        c.focused_control = None;
    }
    Ok(true)
}

/// A mutation needs an open project; without one it is refused before the
/// operation runs.
pub fn mutation_target(current: Option<Binding>) -> (r: Result<Binding, AppError>)
    ensures
        match current {
            Some(c) => r == Ok::<Binding, AppError>(c),
            None => refused(r, ("project_unavailable"@, "No local project is open."@)),
        },
{
    match current {
        Some(c) => Ok(c),
        None => Err(AppError::unavailable()),
    }
}

/// Takes in what a mutation's operation returned: its error, or a project
/// other than the open one, leaves the bindings and the native context
/// unchanged and is the answer; otherwise the answer says whether to publish
/// `revision_advanced`, which is so exactly when the revision moved.
pub fn settle_mutation(
    bindings: &mut BoundedMap<Binding>,
    context: &mut Option<ContextSnapshot>,
    current: Binding,
    outcome: Result<Binding, AppError>,
) -> (r: Result<bool, AppError>)
    requires
        old(bindings).wf(),
    ensures
        final(bindings).wf(),
        final(bindings).capacity() == old(bindings).capacity(),
        match outcome {
            Err(e) => r == Err::<bool, AppError>(e) && final(bindings).map() == old(bindings).map()
                && *final(context) == *old(context),
            Ok(next) => if next.project_id != current.project_id {
                refused(r, ("project_mismatch"@, "A mutation returned a different project."@))
                    && final(bindings).map() == old(bindings).map() && *final(context) == *old(context)
            } else {
                r == Ok::<bool, AppError>(next.revision_id != current.revision_id)
            },
        },
{
    match outcome {
        Err(e) => Err(e),
        Ok(next) => apply_mutation(bindings, context, current, next),
    }
}

/// The native context after the project moved to `revision`: it names the new
/// revision and keeps its tab, mode, project, binding and capture time, with
/// no selection, no focus and no focused control.
pub open spec fn context_after_revision(before: ContextSnapshot, after: ContextSnapshot, revision: RevisionId) -> bool {
    &&& after.revision_id matches Some(t) && t@ == decimal(revision.spec_value() as nat)
    &&& after.segment_ids@.len() == 0
    &&& after.alignment_ids@.len() == 0
    &&& after.selected_text@.len() == 0
    &&& after.text_range is None
    &&& !after.window_focused
    &&& after.focused_control is None
    &&& after.tab == before.tab
    &&& after.mode == before.mode
    &&& after.project_id == before.project_id
    &&& after.binding_id == before.binding_id
    &&& after.captured_at == before.captured_at
}

/// What a project remembers of a committed native command.
#[derive(Clone, Debug)]
pub struct CommandReceipt {
    pub command_id: CommandId,
    /// The lower-case hexadecimal SHA-256 digest of the command's envelope.
    pub fingerprint: String,
    pub committed_revision_id: RevisionId,
}

/// What happens to a native command envelope.
#[derive(Clone, Debug)]
pub enum CommandGate {
    /// The command was committed before with the same arguments: answer
    /// `duplicate` with the revision it committed.
    Duplicate(RevisionId),
    /// Run the command; its receipt commits it at the next revision.
    Execute(CommandReceipt),
}

/// The first receipt of a command identifier, if any.
pub open spec fn receipt_of(receipts: Seq<CommandReceipt>, id: CommandId) -> Option<CommandReceipt>
    decreases receipts.len(),
{
    if receipts.len() == 0 {
        None
    } else if receipts[0].command_id == id {
        Some(receipts[0])
    } else {
        receipt_of(receipts.drop_first(), id)
    }
}

/// The error code a native command envelope meets, if any: it must use the
/// supported contract, a project must be open and be the command's, a
/// reused command identifier must come with the same arguments, and a new
/// command must be based on the current revision.
pub open spec fn command_problem(
    version_supported: bool,
    current: Option<Binding>,
    project_id: ProjectId,
    receipt: Option<CommandReceipt>,
    fingerprint: Seq<char>,
    base_revision_id: RevisionId,
) -> Option<(Seq<char>, Seq<char>)> {
    if !version_supported {
        Some(("unsupported"@, "Unsupported command contract version."@))
    } else {
        match current {
            None => Some(("project_unavailable"@, "No local project is open."@)),
            Some(c) => if c.project_id != project_id {
                Some(("project_mismatch"@, "The command belongs to another project."@))
            } else {
                match receipt {
                    Some(r) => if r.fingerprint@ != fingerprint {
                        Some(("command_id_conflict"@, "A command ID cannot be reused with different arguments."@))
                    } else {
                        None
                    },
                    None => if c.revision_id != base_revision_id {
                        Some(("stale_revision"@, "The command is based on an earlier project revision."@))
                    } else {
                        None
                    },
                }
            },
        }
    }
}

proof fn lemma_receipt_push(receipts: Seq<CommandReceipt>, n: CommandReceipt)
    requires
        receipt_of(receipts, n.command_id) is None,
    ensures
        receipt_of(receipts.push(n), n.command_id) == Some(n),
    decreases receipts.len(),
{
    if receipts.len() > 0 {
        assert(receipts.push(n).drop_first() =~= receipts.drop_first().push(n));
        lemma_receipt_push(receipts.drop_first(), n);
    }
}

/// Once a new command's receipt is kept, the same envelope sent again is
/// answered as a duplicate of the revision it committed, and the same
/// command identifier with other arguments is refused: a command commits at
/// most once.
pub proof fn commands_commit_once(
    receipts: Seq<CommandReceipt>,
    n: CommandReceipt,
    current: Binding,
    project_id: ProjectId,
    fingerprint: Seq<char>,
    base_revision_id: RevisionId,
)
    requires
        receipt_of(receipts, n.command_id) is None,
        current.project_id == project_id,
    ensures
        receipt_of(receipts.push(n), n.command_id) == Some(n),
        command_problem(true, Some(current), project_id, Some(n), n.fingerprint@, base_revision_id) is None,
        fingerprint != n.fingerprint@ ==> command_problem(true, Some(current), project_id, Some(n), fingerprint, base_revision_id)
            == Some(("command_id_conflict"@, "A command ID cannot be reused with different arguments."@)),
{
    lemma_receipt_push(receipts, n);
}

fn find_receipt(receipts: &Vec<CommandReceipt>, id: CommandId) -> (r: Option<usize>)
    ensures
        match receipt_of(receipts@, id) {
            Some(x) => r matches Some(i) && i < receipts@.len() && receipts@[i as int] == x,
            None => r is None,
        },
{
    let mut i: usize = 0;
    assert(receipts@.skip(0) =~= receipts@);
    while i < receipts.len()
        invariant
            0 <= i <= receipts@.len(),
            receipt_of(receipts@.skip(i as int), id) == receipt_of(receipts@, id),
        decreases receipts@.len() - i,
    {
        assert(receipts@.skip(i as int).drop_first() =~= receipts@.skip(i as int + 1));
        assert(receipts@.skip(i as int)[0] == receipts@[i as int]);
        if receipts[i].command_id.as_u128() == id.as_u128() {
            proof {
                crate::ids::command_id_identity(receipts@[i as int].command_id, id);
            }
            return Some(i);
        }
        proof {
            crate::ids::command_id_identity(receipts@[i as int].command_id, id);
        }
        i += 1;
    }
    None
}

/// Admits a native command envelope: refuses it, recognises it as a retry of
/// a committed command, or hands out the receipt that commits it at the
/// revision after its base.
pub fn command_gate(
    version: &str,
    supported_version: &str,
    current: Option<Binding>,
    project_id: ProjectId,
    command_id: CommandId,
    fingerprint: &str,
    base_revision_id: RevisionId,
    receipts: &Vec<CommandReceipt>,
) -> (r: Result<CommandGate, AppError>)
    requires
        base_revision_id.spec_value() < u64::MAX,
    ensures
        match command_problem(
            version@ == supported_version@,
            current,
            project_id,
            receipt_of(receipts@, command_id),
            fingerprint@,
            base_revision_id,
        ) {
            Some(p) => refused(r, p),
            None => match receipt_of(receipts@, command_id) {
                Some(x) => r matches Ok(CommandGate::Duplicate(v)) && v == x.committed_revision_id,
                None => r matches Ok(CommandGate::Execute(n)) && n.command_id == command_id && n.fingerprint@
                    == fingerprint@ && n.committed_revision_id.spec_value() == base_revision_id.spec_value() + 1,
            },
        },
{
    if !str_eq(version, supported_version) {
        return Err(AppError::new("unsupported", "Unsupported command contract version."));
    }
    let c = match current {
        Some(c) => c,
        None => return Err(AppError::unavailable()),
    };
    if c.project_id != project_id {
        return Err(AppError::new("project_mismatch", "The command belongs to another project."));
    }
    if let Some(i) = find_receipt(receipts, command_id) {
        if !str_eq(receipts[i].fingerprint.as_str(), fingerprint) {
            return Err(AppError::new("command_id_conflict", "A command ID cannot be reused with different arguments."));
        }
        return Ok(CommandGate::Duplicate(receipts[i].committed_revision_id));
    }
    if c.revision_id != base_revision_id {
        return Err(AppError::new("stale_revision", "The command is based on an earlier project revision."));
    }
    Ok(CommandGate::Execute(CommandReceipt {
        command_id,
        fingerprint: fingerprint.to_owned(),
        committed_revision_id: RevisionId::new(base_revision_id.value() + 1),
    }))
}

/// The fingerprint of a command envelope: the lower-case hexadecimal SHA-256
/// digest of its serialised bytes.
pub fn command_fingerprint(envelope: &[u8]) -> (r: String)
    ensures
        r@ == crate::runtime::hex_bytes(crate::runtime::sha256_digest(envelope@)),
{
    crate::runtime::sha256_hex(envelope)
}

/// The key under which a reply is remembered: who asked, and the request id.
pub open spec fn spec_cache_key(trusted_native: bool, request_id: Seq<char>) -> Seq<char> {
    (if trusted_native { "native:"@ } else { "external:"@ }) + request_id
}

pub fn cache_key(trusted_native: bool, request_id: &str) -> (r: String)
    ensures
        r@ == spec_cache_key(trusted_native, request_id@),
{
    let mut key = if trusted_native { "native:".to_owned() } else { "external:".to_owned() };
    append_str(&mut key, request_id);
    key
}

/// A remembered reply and the fingerprint of the call that produced it.
#[derive(Clone, Debug)]
pub struct CachedReply<R> {
    pub fingerprint: String,
    pub reply: R,
}

/// What a retry finds: `None` for a conflicting fingerprint, `Some(None)`
/// when nothing is remembered, `Some(Some(reply))` for a replay.
pub open spec fn retry_answer<R>(cache: Map<Seq<char>, CachedReply<R>>, key: Seq<char>, fingerprint: Seq<char>) -> Option<Option<R>> {
    if !cache.dom().contains(key) {
        Some(None)
    } else if cache[key].fingerprint@ == fingerprint {
        Some(Some(cache[key].reply))
    } else {
        None
    }
}

/// Looks a retried request up: its first reply when the call is the same,
/// `request_id_conflict` when the same request id came with another call.
pub fn check_retry<'a, R>(cache: &'a BoundedMap<CachedReply<R>>, key: &str, fingerprint: &str) -> (r: Result<Option<&'a R>, AppError>)
    requires
        cache.wf(),
    ensures
        match retry_answer(cache.map(), key@, fingerprint@) {
            None => refused(r, ("request_id_conflict"@, "A request ID may only be retried with identical method, binding, and parameters."@)),
            Some(None) => r matches Ok(None),
            Some(Some(reply)) => r matches Ok(Some(x)) && *x == reply,
        },
{
    match cache.get(key) {
        None => Ok(None),
        Some(cached) => {
            if str_eq(cached.fingerprint.as_str(), fingerprint) {
                Ok(Some(&cached.reply))
            } else {
                Err(AppError::new(
                    "request_id_conflict",
                    "A request ID may only be retried with identical method, binding, and parameters.",
                ))
            }
        },
    }
}

/// Remembers the reply to a retryable call.
pub fn cache_reply<R>(cache: &mut BoundedMap<CachedReply<R>>, key: String, fingerprint: String, reply: R)
    requires
        old(cache).wf(),
    ensures
        final(cache).wf(),
        final(cache).capacity() == old(cache).capacity(),
        (final(cache).map(), final(cache).order()) == evict(
            old(cache).map().insert(key@, CachedReply { fingerprint, reply }),
            old(cache).order().push(key@),
            old(cache).capacity(),
        ),
{
    cache.insert(key, CachedReply { fingerprint, reply });
}

/// A retryable request answered once, under a key not listed before, is
/// answered again with the same reply when the same call is retried, and is
/// refused as a conflict when the request id comes back with another call.
pub proof fn retry_replays_first_reply<R>(
    cache: Map<Seq<char>, CachedReply<R>>,
    order: Seq<Seq<char>>,
    capacity: nat,
    key: Seq<char>,
    fingerprint: String,
    reply: R,
    other: Seq<char>,
)
    requires
        capacity >= 1,
        !order.contains(key),
    ensures
        ({
            let after = evict(cache.insert(key, CachedReply { fingerprint, reply }), order.push(key), capacity).0;
            &&& retry_answer(after, key, fingerprint@) == Some(Some(reply))
            &&& other != fingerprint@ ==> retry_answer(after, key, other) is None
        }),
{
    fresh_insert_is_held(cache, order, capacity, key, CachedReply { fingerprint, reply });
}

/// A retryable reply stays replayable while fewer other replies than the
/// cache's capacity are remembered after it: the same call is answered with
/// it, and the same request id with another call is refused as a conflict.
pub proof fn retry_replays_across_later_replies<R>(
    cache: Map<Seq<char>, CachedReply<R>>,
    order: Seq<Seq<char>>,
    capacity: nat,
    key: Seq<char>,
    fingerprint: String,
    reply: R,
    later: Seq<(Seq<char>, CachedReply<R>)>,
    other: Seq<char>,
)
    requires
        !order.contains(key),
        later.len() < capacity,
        forall|i: int| 0 <= i < later.len() ==> (#[trigger] later[i]).0 != key,
    ensures
        ({
            let first = evict(cache.insert(key, CachedReply { fingerprint, reply }), order.push(key), capacity);
            let after = insert_all(first.0, first.1, capacity, later).0;
            &&& retry_answer(after, key, fingerprint@) == Some(Some(reply))
            &&& other != fingerprint@ ==> retry_answer(after, key, other) is None
        }),
{
    fresh_key_outlasts_later_inserts(cache, order, capacity, key, CachedReply { fingerprint, reply }, later);
}

/// UI synchronisation methods that only the trusted native client may call.
pub open spec fn ui_sync_method(method: Seq<char>) -> bool {
    method == "ui.publish_context"@ || method == "ui.ack"@ || method == "app.get_projection"@
}

/// Research methods that the method table marks native-only.
pub open spec fn native_research_method(method: Seq<char>) -> bool {
    lookup(research_table(), method) matches Some(d) && d.2
}

/// The message of the refusal a call from outside the native client meets, if any.
pub open spec fn spec_dispatch_gate(method: Seq<char>, trusted_native: bool) -> Option<Seq<char>> {
    if trusted_native {
        None
    } else if native_research_method(method) {
        Some("This operation is available only to the trusted native client"@)
    } else if ui_sync_method(method) {
        Some("This UI synchronization method is only available to the trusted native client."@)
    } else {
        None
    }
}

/// Refuses native-only methods to callers other than the trusted native client.
pub fn dispatch_gate(method: &str, trusted_native: bool) -> (r: Result<(), AppError>)
    ensures
        match spec_dispatch_gate(method@, trusted_native) {
            None => r is Ok,
            Some(message) => r matches Err(e) && e.code@ == "native_ui_required"@ && e.message@ == message,
        },
{
    if trusted_native {
        return Ok(());
    }
    let native_only = match research_method(method) {
        Some(d) => d.native_only,
        None => false,
    };
    if native_only {
        return Err(AppError::new("native_ui_required", "This operation is available only to the trusted native client"));
    }
    if str_eq(method, "ui.publish_context") || str_eq(method, "ui.ack") || str_eq(method, "app.get_projection") {
        return Err(AppError::new(
            "native_ui_required",
            "This UI synchronization method is only available to the trusted native client.",
        ));
    }
    Ok(())
}

/// The handler a dispatched method goes to.
#[derive(Clone, Copy, Debug, PartialEq, Eq, Structural)]
pub enum HostRoute {
    Pool,
    Research,
    Describe,
    BindSession,
    Projection,
    GetContext,
    PublishContext,
    Navigate,
    Reveal,
    Ack,
    ValidateRegex,
    SetSearchSpec,
    ExecuteSearch,
    SearchResults,
    ProjectSummary,
    SegmentGet,
    AlignmentGet,
    PreviewReplace,
    ProposalList,
    ProposalApprove,
    ProposalReject,
    OperationGet,
    OperationCancel,
    Pipeline,
}

pub open spec fn has_prefix(s: Seq<char>, p: Seq<char>) -> bool {
    s.len() >= p.len() && s.take(p.len() as int) == p
}

/// The handler of each method name the host serves.
pub open spec fn named_route(method: Seq<char>) -> Option<HostRoute> {
    if method == "app.describe"@ { Some(HostRoute::Describe) }
    else if method == "app.bind_session"@ { Some(HostRoute::BindSession) }
    else if method == "app.get_projection"@ { Some(HostRoute::Projection) }
    else if method == "ui.get_context"@ || method == "ui.get_selection"@ { Some(HostRoute::GetContext) }
    else if method == "ui.publish_context"@ { Some(HostRoute::PublishContext) }
    else if method == "ui.navigate"@ { Some(HostRoute::Navigate) }
    else if method == "ui.reveal"@ { Some(HostRoute::Reveal) }
    else if method == "ui.ack"@ { Some(HostRoute::Ack) }
    else if method == "search.validate_regex"@ { Some(HostRoute::ValidateRegex) }
    else if method == "search.set_spec"@ { Some(HostRoute::SetSearchSpec) }
    else if method == "search.execute"@ { Some(HostRoute::ExecuteSearch) }
    else if method == "search.get_results"@ { Some(HostRoute::SearchResults) }
    else if method == "project.get_summary"@ { Some(HostRoute::ProjectSummary) }
    else if method == "segment.get"@ { Some(HostRoute::SegmentGet) }
    else if method == "alignment.get"@ { Some(HostRoute::AlignmentGet) }
    else if method == "proposal.preview_replace"@ { Some(HostRoute::PreviewReplace) }
    else if method == "proposal.list"@ { Some(HostRoute::ProposalList) }
    else if method == "proposal.approve"@ { Some(HostRoute::ProposalApprove) }
    else if method == "proposal.reject"@ { Some(HostRoute::ProposalReject) }
    else if method == "operation.get"@ { Some(HostRoute::OperationGet) }
    else if method == "operation.cancel"@ { Some(HostRoute::OperationCancel) }
    else { None }
}

/// Where a method goes: pool methods first, then research methods, then the
/// named handlers, then pipeline methods. Approval of a replace proposal is
/// refused to all but the trusted native client; other names are unknown.
/// `Err` carries the refusal's code and message.
pub open spec fn spec_route(method: Seq<char>, trusted_native: bool) -> Result<HostRoute, (Seq<char>, Seq<char>)> {
    if has_prefix(method, "pool."@) {
        Ok(HostRoute::Pool)
    } else if method == "research.call"@ || lookup(research_table(), method) is Some {
        Ok(HostRoute::Research)
    } else if method == "proposal.approve"@ && !trusted_native {
        Err(("native_approval_required"@, "Replace proposals may only be approved by trusted native UI."@))
    } else if named_route(method) is Some {
        Ok(named_route(method)->0)
    } else if has_prefix(method, "pipeline."@) {
        Ok(HostRoute::Pipeline)
    } else {
        Err(("unknown_method"@, "Unsupported application method: "@ + method))
    }
}

/// Each method name the host serves goes to its own handler.
pub proof fn named_routes_go_to_their_handlers()
    ensures
        named_route("app.describe"@) == Some(HostRoute::Describe),
        named_route("app.bind_session"@) == Some(HostRoute::BindSession),
        named_route("app.get_projection"@) == Some(HostRoute::Projection),
        named_route("ui.get_context"@) == Some(HostRoute::GetContext),
        named_route("ui.get_selection"@) == Some(HostRoute::GetContext),
        named_route("ui.publish_context"@) == Some(HostRoute::PublishContext),
        named_route("ui.navigate"@) == Some(HostRoute::Navigate),
        named_route("ui.reveal"@) == Some(HostRoute::Reveal),
        named_route("ui.ack"@) == Some(HostRoute::Ack),
        named_route("search.validate_regex"@) == Some(HostRoute::ValidateRegex),
        named_route("search.set_spec"@) == Some(HostRoute::SetSearchSpec),
        named_route("search.execute"@) == Some(HostRoute::ExecuteSearch),
        named_route("search.get_results"@) == Some(HostRoute::SearchResults),
        named_route("project.get_summary"@) == Some(HostRoute::ProjectSummary),
        named_route("segment.get"@) == Some(HostRoute::SegmentGet),
        named_route("alignment.get"@) == Some(HostRoute::AlignmentGet),
        named_route("proposal.preview_replace"@) == Some(HostRoute::PreviewReplace),
        named_route("proposal.list"@) == Some(HostRoute::ProposalList),
        named_route("proposal.approve"@) == Some(HostRoute::ProposalApprove),
        named_route("proposal.reject"@) == Some(HostRoute::ProposalReject),
        named_route("operation.get"@) == Some(HostRoute::OperationGet),
        named_route("operation.cancel"@) == Some(HostRoute::OperationCancel),
{
    reveal_strlit("app.describe");
    reveal_strlit("app.bind_session");
    reveal_strlit("app.get_projection");
    reveal_strlit("ui.get_context");
    reveal_strlit("ui.get_selection");
    reveal_strlit("ui.publish_context");
    reveal_strlit("ui.navigate");
    reveal_strlit("ui.reveal");
    reveal_strlit("ui.ack");
    reveal_strlit("search.validate_regex");
    reveal_strlit("search.set_spec");
    reveal_strlit("search.execute");
    reveal_strlit("search.get_results");
    reveal_strlit("project.get_summary");
    reveal_strlit("segment.get");
    reveal_strlit("alignment.get");
    reveal_strlit("proposal.preview_replace");
    reveal_strlit("proposal.list");
    reveal_strlit("proposal.approve");
    reveal_strlit("proposal.reject");
    reveal_strlit("operation.get");
    reveal_strlit("operation.cancel");
    // Names of different lengths differ; those of equal length differ at a character.
    assert("app.describe"@.len() == 12);
    assert("app.bind_session"@.len() == 16);
    assert("app.get_projection"@.len() == 18);
    assert("ui.get_context"@.len() == 14);
    assert("ui.get_selection"@.len() == 16);
    assert("ui.publish_context"@.len() == 18);
    assert("ui.navigate"@.len() == 11);
    assert("ui.reveal"@.len() == 9);
    assert("ui.ack"@.len() == 6);
    assert("search.validate_regex"@.len() == 21);
    assert("search.set_spec"@.len() == 15);
    assert("search.execute"@.len() == 14);
    assert("search.get_results"@.len() == 18);
    assert("project.get_summary"@.len() == 19);
    assert("segment.get"@.len() == 11);
    assert("alignment.get"@.len() == 13);
    assert("proposal.preview_replace"@.len() == 24);
    assert("proposal.list"@.len() == 13);
    assert("proposal.approve"@.len() == 16);
    assert("proposal.reject"@.len() == 15);
    assert("operation.get"@.len() == 13);
    assert("operation.cancel"@.len() == 16);
    assert("ui.get_selection"@[0] != "app.bind_session"@[0]);
    assert("ui.publish_context"@[0] != "app.get_projection"@[0]);
    assert("search.execute"@[0] != "ui.get_context"@[0]);
    assert("search.get_results"@[0] != "app.get_projection"@[0]);
    assert("search.get_results"@[0] != "ui.publish_context"@[0]);
    assert("segment.get"@[0] != "ui.navigate"@[0]);
    assert("proposal.list"@[0] != "alignment.get"@[0]);
    assert("proposal.approve"@[0] != "app.bind_session"@[0]);
    assert("proposal.approve"@[0] != "ui.get_selection"@[0]);
    assert("proposal.reject"@[0] != "search.set_spec"@[0]);
    assert("operation.get"@[0] != "alignment.get"@[0]);
    assert("operation.get"@[0] != "proposal.list"@[0]);
    assert("operation.cancel"@[0] != "app.bind_session"@[0]);
    assert("operation.cancel"@[0] != "ui.get_selection"@[0]);
    assert("operation.cancel"@[0] != "proposal.approve"@[0]);
}

/// No two method names share a handler, except the two names of the context
/// read (`ui.get_context` and its older name `ui.get_selection`).
pub proof fn named_routes_are_distinct(a: Seq<char>, b: Seq<char>)
    requires
        named_route(a) is Some,
        named_route(a) == named_route(b),
    ensures
        a == b || (
            (a == "ui.get_context"@ || a == "ui.get_selection"@)
            && (b == "ui.get_context"@ || b == "ui.get_selection"@)
        ),
{
}

fn named_route_of(method: &str) -> (r: Option<HostRoute>)
    ensures
        r == named_route(method@),
{
    if str_eq(method, "app.describe") { Some(HostRoute::Describe) }
    else if str_eq(method, "app.bind_session") { Some(HostRoute::BindSession) }
    else if str_eq(method, "app.get_projection") { Some(HostRoute::Projection) }
    else if str_eq(method, "ui.get_context") || str_eq(method, "ui.get_selection") { Some(HostRoute::GetContext) }
    else if str_eq(method, "ui.publish_context") { Some(HostRoute::PublishContext) }
    else if str_eq(method, "ui.navigate") { Some(HostRoute::Navigate) }
    else if str_eq(method, "ui.reveal") { Some(HostRoute::Reveal) }
    else if str_eq(method, "ui.ack") { Some(HostRoute::Ack) }
    else if str_eq(method, "search.validate_regex") { Some(HostRoute::ValidateRegex) }
    else if str_eq(method, "search.set_spec") { Some(HostRoute::SetSearchSpec) }
    else if str_eq(method, "search.execute") { Some(HostRoute::ExecuteSearch) }
    else if str_eq(method, "search.get_results") { Some(HostRoute::SearchResults) }
    else if str_eq(method, "project.get_summary") { Some(HostRoute::ProjectSummary) }
    else if str_eq(method, "segment.get") { Some(HostRoute::SegmentGet) }
    else if str_eq(method, "alignment.get") { Some(HostRoute::AlignmentGet) }
    else if str_eq(method, "proposal.preview_replace") { Some(HostRoute::PreviewReplace) }
    else if str_eq(method, "proposal.list") { Some(HostRoute::ProposalList) }
    else if str_eq(method, "proposal.approve") { Some(HostRoute::ProposalApprove) }
    else if str_eq(method, "proposal.reject") { Some(HostRoute::ProposalReject) }
    else if str_eq(method, "operation.get") { Some(HostRoute::OperationGet) }
    else if str_eq(method, "operation.cancel") { Some(HostRoute::OperationCancel) }
    else { None }
}

/// Chooses the handler of a dispatched method.
pub fn route(method: &str, trusted_native: bool) -> (r: Result<HostRoute, AppError>)
    ensures
        match spec_route(method@, trusted_native) {
            Ok(h) => r == Ok::<HostRoute, AppError>(h),
            Err(p) => refused(r, p),
        },
{
    if starts_with(method, "pool.") {
        return Ok(HostRoute::Pool);
    }
    if str_eq(method, "research.call") || research_method(method).is_some() {
        return Ok(HostRoute::Research);
    }
    if str_eq(method, "proposal.approve") && !trusted_native {
        return Err(AppError::new("native_approval_required", "Replace proposals may only be approved by trusted native UI."));
    }
    if let Some(h) = named_route_of(method) {
        return Ok(h);
    }
    if starts_with(method, "pipeline.") {
        return Ok(HostRoute::Pipeline);
    }
    let mut message = "Unsupported application method: ".to_owned();
    append_str(&mut message, method);
    Err(AppError { code: "unknown_method".to_owned(), message })
}

/// What the host does with a call once its checks pass: replay a remembered
/// reply, or run the handler the method routes to under the call's cache key,
/// remembering the reply when the method is retryable.
#[derive(Debug)]
pub enum DispatchStep<'a, R> {
    Replay(&'a R),
    Run { route: HostRoute, key: String, remember: bool },
}

/// How a call is dispatched, given the fingerprint of the call (its method,
/// binding, parameters and caller kind): native-only methods are refused to
/// others; a scoped method needs a current binding; a retryable call
/// replays the reply remembered under its cache key, or is refused when that
/// key was used by another call; otherwise the method is routed.
pub open spec fn spec_dispatch_step<R>(
    method: Seq<char>,
    trusted_native: bool,
    request_id: Seq<char>,
    binding_id: Option<Seq<char>>,
    current: Option<Binding>,
    bindings: Map<Seq<char>, Binding>,
    cache: Map<Seq<char>, CachedReply<R>>,
    fingerprint: Seq<char>,
) -> Result<Option<R>, (Seq<char>, Seq<char>)> {
    if spec_dispatch_gate(method, trusted_native) is Some {
        Err(("native_ui_required"@, spec_dispatch_gate(method, trusted_native)->0))
    } else if spec_scoped_method(method) && binding_problem(bindings, binding_id, current) is Some {
        Err(binding_problem(bindings, binding_id, current)->0)
    } else if spec_retryable_method(method) && retry_answer(cache, spec_cache_key(trusted_native, request_id), fingerprint) is None {
        Err(("request_id_conflict"@, "A request ID may only be retried with identical method, binding, and parameters."@))
    } else if spec_retryable_method(method) && retry_answer(cache, spec_cache_key(trusted_native, request_id), fingerprint) is Some
        && retry_answer(cache, spec_cache_key(trusted_native, request_id), fingerprint)->0 is Some {
        Ok(retry_answer(cache, spec_cache_key(trusted_native, request_id), fingerprint)->0)
    } else {
        match spec_route(method, trusted_native) {
            Ok(_) => Ok(None),
            Err(p) => Err(p),
        }
    }
}

/// Decides how a call is dispatched.
pub fn dispatch_step<'a, R>(
    method: &str,
    trusted_native: bool,
    request_id: &str,
    binding_id: Option<&str>,
    current: Option<Binding>,
    bindings: &BoundedMap<Binding>,
    cache: &'a BoundedMap<CachedReply<R>>,
    fingerprint: &str,
) -> (r: Result<DispatchStep<'a, R>, AppError>)
    requires
        bindings.wf(),
        cache.wf(),
    ensures
        match spec_dispatch_step(method@, trusted_native, request_id@, opt_str(binding_id), current, bindings.map(), cache.map(), fingerprint@) {
            Err(p) => refused(r, p),
            Ok(Some(reply)) => r matches Ok(DispatchStep::Replay(x)) && *x == reply,
            Ok(None) => r matches Ok(DispatchStep::Run { route, key, remember })
                && Ok::<HostRoute, (Seq<char>, Seq<char>)>(route) == spec_route(method@, trusted_native)
                && key@ == spec_cache_key(trusted_native, request_id@)
                && remember == spec_retryable_method(method@),
        },
{
    match dispatch_gate(method, trusted_native) {
        Ok(()) => {},
        Err(e) => return Err(e),
    }
    let key = cache_key(trusted_native, request_id);
    if scoped_method(method) {
        match ensure_binding(bindings, binding_id, current) {
            Ok(_) => {},
            Err(e) => return Err(e),
        }
    }
    let remember = retryable_method(method);
    if remember {
        match check_retry(cache, key.as_str(), fingerprint) {
            Ok(Some(reply)) => return Ok(DispatchStep::Replay(reply)),
            Ok(None) => {},
            Err(e) => return Err(e),
        }
    }
    match route(method, trusted_native) {
        Ok(h) => Ok(DispatchStep::Run { route: h, key, remember }),
        Err(e) => Err(e),
    }
}

/// A retryable call answered once is answered again with the same reply,
/// without running its handler, when the same call comes back under the
/// same request id while fewer other replies than the cache's capacity were
/// remembered since and it still passes its binding check; the same request
/// id with another call is refused as a conflict.
pub proof fn dispatch_replays_retried_calls<R>(
    method: Seq<char>,
    trusted_native: bool,
    request_id: Seq<char>,
    binding_id: Option<Seq<char>>,
    current: Option<Binding>,
    bindings: Map<Seq<char>, Binding>,
    cache: Map<Seq<char>, CachedReply<R>>,
    order: Seq<Seq<char>>,
    capacity: nat,
    fingerprint: String,
    reply: R,
    later: Seq<(Seq<char>, CachedReply<R>)>,
    other: Seq<char>,
)
    requires
        spec_retryable_method(method),
        spec_dispatch_gate(method, trusted_native) is None,
        !(spec_scoped_method(method) && binding_problem(bindings, binding_id, current) is Some),
        !order.contains(spec_cache_key(trusted_native, request_id)),
        later.len() < capacity,
        forall|i: int| 0 <= i < later.len() ==> (#[trigger] later[i]).0 != spec_cache_key(trusted_native, request_id),
    ensures
        ({
            let key = spec_cache_key(trusted_native, request_id);
            let first = evict(cache.insert(key, CachedReply { fingerprint, reply }), order.push(key), capacity);
            let after = insert_all(first.0, first.1, capacity, later).0;
            &&& spec_dispatch_step(method, trusted_native, request_id, binding_id, current, bindings, after, fingerprint@)
                == Ok::<Option<R>, (Seq<char>, Seq<char>)>(Some(reply))
            &&& other != fingerprint@ ==> spec_dispatch_step(method, trusted_native, request_id, binding_id, current, bindings, after, other)
                == Err::<Option<R>, (Seq<char>, Seq<char>)>(("request_id_conflict"@, "A request ID may only be retried with identical method, binding, and parameters."@))
        }),
{
    retry_replays_across_later_replies(cache, order, capacity, spec_cache_key(trusted_native, request_id), fingerprint, reply, later, other);
}

/// The tabs the native UI can be asked to show.
pub open spec fn navigable_tab(tab: Seq<char>) -> bool {
    ||| tab == "project"@
    ||| tab == "review"@
    ||| tab == "edit"@
    ||| tab == "order"@
    ||| tab == "history"@
    ||| tab == "search"@
    ||| tab == "pipeline"@
    ||| tab == "settings"@
}

/// The error code a navigation request meets, if any.
pub open spec fn navigation_problem(tab: Option<Seq<char>>, project_open: bool) -> Option<(Seq<char>, Seq<char>)> {
    match tab {
        None => Some(("invalid_request"@, "ui.navigate requires tab"@)),
        Some(t) => if !navigable_tab(t) {
            Some(("invalid_request"@, "ui.navigate tab is not supported"@))
        } else if !project_open && !(t == "project"@ || t == "settings"@) {
            Some(("project_unavailable"@, "Only project and settings navigation is available before a project opens."@))
        } else {
            None
        },
    }
}

/// Checks a request to navigate the native UI to a tab: the tab must be one
/// the UI has, and before a project opens only the project and settings tabs.
pub fn check_navigation(tab: Option<&str>, project_open: bool) -> (r: Result<(), AppError>)
    ensures
        match navigation_problem(opt_str(tab), project_open) {
            None => r is Ok,
            Some(p) => refused(r, p),
        },
{
    let t = match tab {
        Some(t) => t,
        None => return Err(AppError::invalid("ui.navigate requires tab")),
    };
    let known = str_eq(t, "project") || str_eq(t, "review") || str_eq(t, "edit") || str_eq(t, "order")
        || str_eq(t, "history") || str_eq(t, "search") || str_eq(t, "pipeline") || str_eq(t, "settings");
    if !known {
        return Err(AppError::invalid("ui.navigate tab is not supported"));
    }
    if !project_open && !(str_eq(t, "project") || str_eq(t, "settings")) {
        return Err(AppError::new(
            "project_unavailable",
            "Only project and settings navigation is available before a project opens.",
        ));
    }
    Ok(())
}

pub open spec fn segment_listed(segments: Seq<SegmentId>, v: u128) -> bool {
    exists|j: int| 0 <= j < segments.len() && #[trigger] segments[j].value() == v
}

pub open spec fn alignment_listed(alignments: Seq<AlignmentId>, v: u128) -> bool {
    exists|j: int| 0 <= j < alignments.len() && #[trigger] alignments[j].value() == v
}

fn has_segment(segments: &[SegmentId], v: u128) -> (r: bool)
    ensures
        r == segment_listed(segments@, v),
{
    let mut i: usize = 0;
    while i < segments.len()
        invariant
            0 <= i <= segments@.len(),
            forall|j: int| 0 <= j < i ==> #[trigger] segments@[j].value() != v,
        decreases segments@.len() - i,
    {
        if segments[i].as_u128() == v {
            return true;
        }
        i += 1;
    }
    false
}

fn has_alignment(alignments: &[AlignmentId], v: u128) -> (r: bool)
    ensures
        r == alignment_listed(alignments@, v),
{
    let mut i: usize = 0;
    while i < alignments.len()
        invariant
            0 <= i <= alignments@.len(),
            forall|j: int| 0 <= j < i ==> #[trigger] alignments@[j].value() != v,
        decreases alignments@.len() - i,
    {
        if alignments[i].as_u128() == v {
            return true;
        }
        i += 1;
    }
    false
}

/// The identifiers of what the open project holds.
pub struct ProjectContents {
    pub segments: Vec<SegmentId>,
    pub alignments: Vec<AlignmentId>,
}

/// The error code a reveal request meets, if any.
pub open spec fn reveal_problem(
    project: Option<ProjectContents>,
    segment_id: Option<Seq<char>>,
    alignment_id: Option<Seq<char>>,
    node_id: Option<Seq<char>>,
) -> Option<(Seq<char>, Seq<char>)> {
    match project {
        None => Some(("project_unavailable"@, "No local project is open."@)),
        Some(p) => if segment_id is None && alignment_id is None && node_id is None {
            Some(("invalid_request"@, "ui.reveal requires segment_id, alignment_id, or node_id"@))
        } else if segment_id matches Some(t) && uuid_parse(t) is None {
            Some(("invalid_request"@, "segment_id must be a stable UUID"@))
        } else if segment_id matches Some(t) && !segment_listed(p.segments@, uuid_parse(t)->0) {
            Some(("segment_not_found"@, "Segment does not exist in the current project."@))
        } else if alignment_id matches Some(t) && uuid_parse(t) is None {
            Some(("invalid_request"@, "alignment_id must be a stable UUID"@))
        } else if alignment_id matches Some(t) && !alignment_listed(p.alignments@, uuid_parse(t)->0) {
            Some(("alignment_not_found"@, "Alignment does not exist in the current project."@))
        } else if node_id matches Some(t) && uuid_parse(t) is None {
            Some(("invalid_request"@, "node_id must be a stable UUID"@))
        } else {
            None
        },
    }
}

/// Checks a request to reveal a segment, an alignment or a graph node in the
/// native UI: a project must be open, something must be named, every named
/// identifier must parse, and named segments and alignments must exist.
pub fn check_reveal(
    project: Option<&ProjectContents>,
    segment_id: Option<&str>,
    alignment_id: Option<&str>,
    node_id: Option<&str>,
) -> (r: Result<(), AppError>)
    ensures
        match reveal_problem(
            match project { Some(p) => Some(*p), None => None },
            opt_str(segment_id),
            opt_str(alignment_id),
            opt_str(node_id),
        ) {
            None => r is Ok,
            Some(p) => refused(r, p),
        },
{
    let p = match project {
        Some(p) => p,
        None => return Err(AppError::unavailable()),
    };
    if segment_id.is_none() && alignment_id.is_none() && node_id.is_none() {
        return Err(AppError::invalid("ui.reveal requires segment_id, alignment_id, or node_id"));
    }
    if let Some(t) = segment_id {
        match parse_uuid(t) {
            None => return Err(AppError::invalid("segment_id must be a stable UUID")),
            Some(v) => {
                if !has_segment(p.segments.as_slice(), v) {
                    return Err(AppError::new("segment_not_found", "Segment does not exist in the current project."));
                }
            },
        }
    }
    if let Some(t) = alignment_id {
        match parse_uuid(t) {
            None => return Err(AppError::invalid("alignment_id must be a stable UUID")),
            Some(v) => {
                if !has_alignment(p.alignments.as_slice(), v) {
                    return Err(AppError::new("alignment_not_found", "Alignment does not exist in the current project."));
                }
            },
        }
    }
    if let Some(t) = node_id {
        if parse_uuid(t).is_none() {
            return Err(AppError::invalid("node_id must be a stable UUID"));
        }
    }
    Ok(())
}

/// The error code the first bad segment identifier of a context meets, if any.
pub open spec fn segments_problem(p: ProjectContents, ids: Seq<String>) -> Option<(Seq<char>, Seq<char>)>
    decreases ids.len(),
{
    if ids.len() == 0 {
        None
    } else {
        match uuid_parse(ids[0]@) {
            None => Some(("invalid_request"@, "context segment_ids must contain stable UUIDs"@)),
            Some(v) => if !segment_listed(p.segments@, v) {
                Some(("segment_not_found"@, "Native context references a segment outside the current project."@))
            } else {
                segments_problem(p, ids.drop_first())
            },
        }
    }
}

/// The error code the first bad alignment identifier of a context meets, if any.
pub open spec fn alignments_problem(p: ProjectContents, ids: Seq<String>) -> Option<(Seq<char>, Seq<char>)>
    decreases ids.len(),
{
    if ids.len() == 0 {
        None
    } else {
        match uuid_parse(ids[0]@) {
            None => Some(("invalid_request"@, "context alignment_ids must contain stable UUIDs"@)),
            Some(v) => if !alignment_listed(p.alignments@, v) {
                Some(("alignment_not_found"@, "Native context references an alignment outside the current project."@))
            } else {
                alignments_problem(p, ids.drop_first())
            },
        }
    }
}

/// Finds a segment of the open project for a bound caller by its identifier
/// text: the text must parse, the binding must be current, and the segment
/// must exist; the answer is the position of its first entry.
#[verifier::loop_isolation(false)]
pub fn locate_segment(
    project: &ProjectContents,
    id_text: &str,
    bindings: &BoundedMap<Binding>,
    binding_id: Option<&str>,
    current: Option<Binding>,
) -> (r: Result<usize, AppError>)
    requires
        bindings.wf(),
    ensures
        uuid_parse(id_text@) is None ==> refused(r, ("invalid_request"@, "segment_id must be a stable UUID"@)),
        uuid_parse(id_text@) matches Some(v) ==> match binding_problem(bindings.map(), opt_str(binding_id), current) {
            Some(p) => refused(r, p),
            None => if segment_listed(project.segments@, v) {
                r matches Ok(i) && i < project.segments@.len() && project.segments@[i as int].value() == v
                    && forall|j: int| 0 <= j < i ==> #[trigger] project.segments@[j].value() != v
            } else {
                refused(r, ("segment_not_found"@, "Segment does not exist in the current project."@))
            },
        },
{
    let v = match parse_uuid(id_text) {
        Some(v) => v,
        None => return Err(AppError::invalid("segment_id must be a stable UUID")),
    };
    if let Err(e) = ensure_binding(bindings, binding_id, current) {
        return Err(e);
    }
    let mut i: usize = 0;
    while i < project.segments.len()
        invariant
            0 <= i <= project.segments@.len(),
            forall|j: int| 0 <= j < i ==> #[trigger] project.segments@[j].value() != v,
        decreases project.segments@.len() - i,
    {
        if project.segments[i].as_u128() == v {
            return Ok(i);
        }
        i += 1;
    }
    Err(AppError::new("segment_not_found", "Segment does not exist in the current project."))
}

/// Finds an alignment of the open project for a bound caller, as
/// `locate_segment` finds a segment.
#[verifier::loop_isolation(false)]
pub fn locate_alignment(
    project: &ProjectContents,
    id_text: &str,
    bindings: &BoundedMap<Binding>,
    binding_id: Option<&str>,
    current: Option<Binding>,
) -> (r: Result<usize, AppError>)
    requires
        bindings.wf(),
    ensures
        uuid_parse(id_text@) is None ==> refused(r, ("invalid_request"@, "alignment_id must be a stable UUID"@)),
        uuid_parse(id_text@) matches Some(v) ==> match binding_problem(bindings.map(), opt_str(binding_id), current) {
            Some(p) => refused(r, p),
            None => if alignment_listed(project.alignments@, v) {
                r matches Ok(i) && i < project.alignments@.len() && project.alignments@[i as int].value() == v
                    && forall|j: int| 0 <= j < i ==> #[trigger] project.alignments@[j].value() != v
            } else {
                refused(r, ("alignment_not_found"@, "Alignment does not exist in the current project."@))
            },
        },
{
    let v = match parse_uuid(id_text) {
        Some(v) => v,
        None => return Err(AppError::invalid("alignment_id must be a stable UUID")),
    };
    if let Err(e) = ensure_binding(bindings, binding_id, current) {
        return Err(e);
    }
    let mut i: usize = 0;
    while i < project.alignments.len()
        invariant
            0 <= i <= project.alignments@.len(),
            forall|j: int| 0 <= j < i ==> #[trigger] project.alignments@[j].value() != v,
        decreases project.alignments@.len() - i,
    {
        if project.alignments[i].as_u128() == v {
            return Ok(i);
        }
        i += 1;
    }
    Err(AppError::new("alignment_not_found", "Alignment does not exist in the current project."))
}

/// The error code a published native UI context meets, if any: before a
/// project opens it may name no binding, project or revision; afterwards
/// every segment and then every alignment it names must parse and exist.
pub open spec fn context_problem(
    project: Option<ProjectContents>,
    names_binding: bool,
    segment_ids: Seq<String>,
    alignment_ids: Seq<String>,
) -> Option<(Seq<char>, Seq<char>)> {
    match project {
        None => if names_binding { Some(("app_context_invalid"@, "Loading-state context must have no binding, project ID, or revision ID."@)) } else { None },
        Some(p) => match segments_problem(p, segment_ids) {
            Some(p) => Some(p),
            None => alignments_problem(p, alignment_ids),
        },
    }
}

/// Checks a context the native UI publishes against the open project, if any.
/// `names_binding` says whether the call or the context names a binding, a
/// project or a revision.
pub fn check_context(
    project: Option<&ProjectContents>,
    names_binding: bool,
    segment_ids: &Vec<String>,
    alignment_ids: &Vec<String>,
) -> (r: Result<(), AppError>)
    ensures
        match context_problem(match project { Some(p) => Some(*p), None => None }, names_binding, segment_ids@, alignment_ids@) {
            None => r is Ok,
            Some(p) => refused(r, p),
        },
{
    let p = match project {
        None => {
            if names_binding {
                return Err(AppError::new(
                    "app_context_invalid",
                    "Loading-state context must have no binding, project ID, or revision ID.",
                ));
            }
            return Ok(());
        },
        Some(p) => p,
    };
    let ghost pv = *p;
    let mut i: usize = 0;
    assert(segment_ids@.skip(0) == segment_ids@);
    while i < segment_ids.len()
        invariant
            0 <= i <= segment_ids@.len(),
            pv == *p,
            project == Some(p),
            segments_problem(pv, segment_ids@) == segments_problem(pv, segment_ids@.skip(i as int)),
        decreases segment_ids@.len() - i,
    {
        assert(segment_ids@.skip(i as int)[0] == segment_ids@[i as int]);
        assert(segment_ids@.skip(i as int).drop_first() == segment_ids@.skip(i as int + 1));
        match parse_uuid(segment_ids[i].as_str()) {
            None => {
                return Err(AppError::invalid("context segment_ids must contain stable UUIDs"));
            },
            Some(v) => {
                if !has_segment(p.segments.as_slice(), v) {
                    return Err(AppError::new(
                        "segment_not_found",
                        "Native context references a segment outside the current project.",
                    ));
                }
            },
        }
        i += 1;
    }
    let mut i: usize = 0;
    assert(alignment_ids@.skip(0) == alignment_ids@);
    while i < alignment_ids.len()
        invariant
            0 <= i <= alignment_ids@.len(),
            pv == *p,
            project == Some(p),
            segments_problem(pv, segment_ids@) is None,
            alignments_problem(pv, alignment_ids@) == alignments_problem(pv, alignment_ids@.skip(i as int)),
        decreases alignment_ids@.len() - i,
    {
        assert(alignment_ids@.skip(i as int)[0] == alignment_ids@[i as int]);
        assert(alignment_ids@.skip(i as int).drop_first() == alignment_ids@.skip(i as int + 1));
        match parse_uuid(alignment_ids[i].as_str()) {
            None => {
                return Err(AppError::invalid("context alignment_ids must contain stable UUIDs"));
            },
            Some(v) => {
                if !has_alignment(p.alignments.as_slice(), v) {
                    return Err(AppError::new(
                        "alignment_not_found",
                        "Native context references an alignment outside the current project.",
                    ));
                }
            },
        }
        i += 1;
    }
    Ok(())
}

/// Who started a host UI operation: the binding it came through, and the
/// project that was open then.
#[derive(Clone, Debug)]
pub struct OperationOwner {
    pub binding_id: Option<String>,
    pub project_id: Option<ProjectId>,
}

pub open spec fn opt_string(o: Option<String>) -> Option<Seq<char>> {
    match o {
        Some(s) => Some(s@),
        None => None,
    }
}

/// The error code a caller meets when it reads or cancels an operation, if
/// any: the operation must be known, and the caller must be the binding that
/// started it in the project that is still open (or, for an app-only
/// operation, the same binding while no project is open).
pub open spec fn access_problem(
    owner: Option<OperationOwner>,
    bindings: Map<Seq<char>, Binding>,
    binding_id: Option<Seq<char>>,
    current: Option<Binding>,
) -> Option<(Seq<char>, Seq<char>)> {
    match owner {
        None => Some(("operation_not_found"@, "No host UI operation has this ID in the current project."@)),
        Some(o) => match o.project_id {
            Some(p) => match binding_problem(bindings, binding_id, current) {
                Some(p) => Some(p),
                None => if current->0.project_id != p || opt_string(o.binding_id) != binding_id {
                    Some(("operation_forbidden"@, "This operation belongs to another client binding or project."@))
                } else {
                    None
                },
            },
            None => if current is None && opt_string(o.binding_id) == binding_id {
                None
            } else {
                Some(("operation_forbidden"@, "This app-only operation belongs to another client binding or epoch."@))
            },
        },
    }
}

fn same_opt(a: &Option<String>, b: Option<&str>) -> (r: bool)
    ensures
        r == (opt_string(*a) == opt_str(b)),
{
    match (a, b) {
        (Some(x), Some(y)) => str_eq(x.as_str(), y),
        (None, None) => true,
        _ => false,
    }
}

/// Checks that the caller may read or cancel a host UI operation.
pub fn check_operation_access(
    owner: Option<&OperationOwner>,
    bindings: &BoundedMap<Binding>,
    binding_id: Option<&str>,
    current: Option<Binding>,
) -> (r: Result<(), AppError>)
    requires
        bindings.wf(),
    ensures
        match access_problem(match owner { Some(o) => Some(*o), None => None }, bindings.map(), opt_str(binding_id), current) {
            None => r is Ok,
            Some(p) => refused(r, p),
        },
{
    let o = match owner {
        Some(o) => o,
        None => return Err(AppError::new("operation_not_found", "No host UI operation has this ID in the current project.")),
    };
    match o.project_id {
        Some(p) => {
            let c = match ensure_binding(bindings, binding_id, current) {
                Err(e) => return Err(e),
                Ok(_) => current.unwrap(),
            };
            if c.project_id != p || !same_opt(&o.binding_id, binding_id) {
                return Err(AppError::new("operation_forbidden", "This operation belongs to another client binding or project."));
            }
            Ok(())
        },
        None => {
            if current.is_none() && same_opt(&o.binding_id, binding_id) {
                Ok(())
            } else {
                Err(AppError::new("operation_forbidden", "This app-only operation belongs to another client binding or epoch."))
            }
        },
    }
}

/// The error code a cancellation of a native UI action meets, if any: only
/// an action still waiting as `accepted`, in a live epoch, can be cancelled.
pub open spec fn cancel_problem(
    action: Option<PendingUiAction>,
    bindings: Map<Seq<char>, Binding>,
    binding_id: Option<Seq<char>>,
    current: Option<Binding>,
) -> Option<(Seq<char>, Seq<char>)> {
    match action {
        None => Some(("operation_not_cancellable"@, "Only a pending native UI operation can be cancelled here."@)),
        Some(a) => if a.status@ != "accepted"@ {
            Some(("operation_not_cancellable"@, "This UI operation is no longer pending for the current binding."@))
        } else {
            epoch_problem(a.epoch, bindings, binding_id, current)
        },
    }
}

/// Checks that a pending native UI action can be cancelled by the caller.
pub fn check_cancel(
    action: Option<&PendingUiAction>,
    bindings: &BoundedMap<Binding>,
    binding_id: Option<&str>,
    current: Option<Binding>,
) -> (r: Result<(), AppError>)
    requires
        bindings.wf(),
    ensures
        match cancel_problem(match action { Some(a) => Some(*a), None => None }, bindings.map(), opt_str(binding_id), current) {
            None => r is Ok,
            Some(p) => refused(r, p),
        },
{
    let a = match action {
        Some(a) => a,
        None => return Err(AppError::new("operation_not_cancellable", "Only a pending native UI operation can be cancelled here.")),
    };
    if !str_eq(a.status.as_str(), "accepted") {
        return Err(AppError::new("operation_not_cancellable", "This UI operation is no longer pending for the current binding."));
    }
    check_epoch(a.epoch, bindings, binding_id, current)
}

/// Refuses a new native UI action while too many wait for acknowledgement.
pub fn check_backpressure(pending_actions: usize) -> (r: Result<(), AppError>)
    ensures
        r is Ok <==> pending_actions < MAX_UI_ACTIONS,
        pending_actions >= MAX_UI_ACTIONS ==> refused(r, ("operation_backpressure"@, "Too many pending UI actions; acknowledge or cancel an earlier action."@)),
{
    if pending_actions >= MAX_UI_ACTIONS {
        return Err(AppError::new(
            "operation_backpressure",
            "Too many pending UI actions; acknowledge or cancel an earlier action.",
        ));
    }
    Ok(())
}

/// The statuses a native UI acknowledgement may report.
pub open spec fn ack_status_allowed(status: Seq<char>) -> bool {
    status == "ui_applied"@ || status == "failed"@ || status == "cancelled"@
}

/// A native UI action waiting for acknowledgement: the request that asked for
/// it and the project revision it was asked in, if a project was open.
#[derive(Clone, Debug)]
pub struct PendingUiAction {
    pub request_id: String,
    pub epoch: Option<Binding>,
    /// `accepted` while the action waits.
    pub status: String,
}

/// The error code a caller meets when it acts on a UI action of the given
/// epoch, if any: an action asked in a project revision needs a current
/// binding and that revision still current; an app-only action needs no
/// open project and no binding.
pub open spec fn epoch_problem(
    epoch: Option<Binding>,
    bindings: Map<Seq<char>, Binding>,
    binding_id: Option<Seq<char>>,
    current: Option<Binding>,
) -> Option<(Seq<char>, Seq<char>)> {
    match epoch {
        Some(e) => match binding_problem(bindings, binding_id, current) {
            Some(p) => Some(p),
            None => if current != Some(e) { Some(("stale_operation_epoch"@, "The UI operation belongs to an earlier project or revision epoch."@)) } else { None },
        },
        None => if current is None && binding_id is None { None } else { Some(("stale_operation_epoch"@, "The app-only UI operation no longer belongs to the current application epoch."@)) },
    }
}

fn check_epoch(
    epoch: Option<Binding>,
    bindings: &BoundedMap<Binding>,
    binding_id: Option<&str>,
    current: Option<Binding>,
) -> (r: Result<(), AppError>)
    requires
        bindings.wf(),
    ensures
        match epoch_problem(epoch, bindings.map(), opt_str(binding_id), current) {
            None => r is Ok,
            Some(p) => refused(r, p),
        },
{
    match epoch {
        Some(e) => {
            if let Err(err) = ensure_binding(bindings, binding_id, current) {
                return Err(err);
            }
            let matches_epoch = match current {
                Some(c) => c.project_id == e.project_id && c.revision_id == e.revision_id,
                None => false,
            };
            if !matches_epoch {
                return Err(AppError::new(
                    "stale_operation_epoch",
                    "The UI operation belongs to an earlier project or revision epoch.",
                ));
            }
            Ok(())
        },
        None => {
            if !(current.is_none() && binding_id.is_none()) {
                return Err(AppError::new(
                    "stale_operation_epoch",
                    "The app-only UI operation no longer belongs to the current application epoch.",
                ));
            }
            Ok(())
        },
    }
}

/// The error code an acknowledgement meets, or `None` when it is accepted.
pub open spec fn ack_problem(
    status: Seq<char>,
    action: Option<PendingUiAction>,
    operation_known: bool,
    request_id: Seq<char>,
    bindings: Map<Seq<char>, Binding>,
    binding_id: Option<Seq<char>>,
    current: Option<Binding>,
) -> Option<(Seq<char>, Seq<char>)> {
    if !ack_status_allowed(status) {
        Some(("invalid_request"@, "ui.ack status must be ui_applied, failed, or cancelled"@))
    } else {
        match action {
            None => if operation_known { Some(("operation_terminal"@, "This UI operation has already reached a terminal state."@)) } else { Some(("operation_not_found"@, "No pending native UI operation has this ID."@)) },
            Some(a) => if a.request_id@ != request_id {
                Some(("ack_mismatch"@, "The acknowledgement request ID does not match the UI operation."@))
            } else {
                epoch_problem(a.epoch, bindings, binding_id, current)
            },
        }
    }
}

/// Checks a native UI acknowledgement of a pending action and answers the
/// status it records (`ui_applied` when none is given).
pub fn check_ack(
    status: Option<&str>,
    action: Option<&PendingUiAction>,
    operation_known: bool,
    request_id: &str,
    bindings: &BoundedMap<Binding>,
    binding_id: Option<&str>,
    current: Option<Binding>,
) -> (r: Result<String, AppError>)
    requires
        bindings.wf(),
    ensures
        ({
            let s = match status { Some(s) => s@, None => "ui_applied"@ };
            let a = match action { Some(a) => Some(*a), None => None };
            match ack_problem(s, a, operation_known, request_id@, bindings.map(), opt_str(binding_id), current) {
                None => r matches Ok(x) && x@ == s,
                Some(p) => refused(r, p),
            }
        }),
{
    let s: String = match status {
        Some(s) => s.to_owned(),
        None => "ui_applied".to_owned(),
    };
    if !(str_eq(s.as_str(), "ui_applied") || str_eq(s.as_str(), "failed") || str_eq(s.as_str(), "cancelled")) {
        return Err(AppError::invalid("ui.ack status must be ui_applied, failed, or cancelled"));
    }
    let a = match action {
        Some(a) => a,
        None => {
            if operation_known {
                return Err(AppError::new("operation_terminal", "This UI operation has already reached a terminal state."));
            }
            return Err(AppError::new("operation_not_found", "No pending native UI operation has this ID."));
        },
    };
    if !str_eq(a.request_id.as_str(), request_id) {
        return Err(AppError::new("ack_mismatch", "The acknowledgement request ID does not match the UI operation."));
    }
    if let Err(e) = check_epoch(a.epoch, bindings, binding_id, current) {
        return Err(e);
    }
    Ok(s)
}

} // verus!

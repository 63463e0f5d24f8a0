//! The embedded agent runtime's configuration model and its pure policies:
//! tool aliases, endpoint validation, secret scoping and redaction, run
//! budgets and send-time context checks.
use vstd::prelude::*;
use sha2::Digest;
use crate::application::ContextSnapshot;
use crate::segment::hex_digit;
use crate::strings::{chars_of, str_eq, append_str, push_char};
use crate::registry::TextMap;
use crate::text::{trim, is_blank};

verus! {

pub const MAX_TOOL_STEPS: u32 = 12;
pub const MAX_MODEL_TURNS: u32 = 16;
pub const MAX_OUTPUT_BYTES: usize = 98304;
pub const MAX_PROVIDER_RESPONSE_BYTES: usize = 524288;
pub const MAX_HISTORY_MESSAGES: usize = 32;

/// Errors of the runtime's own rules.
#[derive(Clone, Debug, PartialEq, Eq)]
pub enum RuntimeError {
    InvalidConfiguration(String),
    NotConfigured,
    RunNotFound(String),
    /// The conversation store failed, with the store's message.
    Database(String),
    /// The provider request failed, with the HTTP client's message.
    Request(String),
    /// JSON could not be read or written, with the parser's message.
    Serialization(String),
    Tool(String),
}

/// The text a runtime error is shown as.
pub open spec fn spec_error_text(e: RuntimeError) -> Seq<char> {
    match e {
        RuntimeError::InvalidConfiguration(m) => "invalid runtime configuration: "@ + m@,
        RuntimeError::NotConfigured => "runtime is not configured"@,
        RuntimeError::RunNotFound(m) => "runtime run was not found: "@ + m@,
        RuntimeError::Database(m) => "runtime database error: "@ + m@,
        RuntimeError::Request(m) => "runtime provider request failed: "@ + m@,
        RuntimeError::Serialization(m) => "runtime serialization error: "@ + m@,
        RuntimeError::Tool(m) => "application tool failed: "@ + m@,
    }
}

impl RuntimeError {
    /// The text the error is shown as.
    pub fn describe(&self) -> (r: String)
        ensures
            r@ == spec_error_text(*self),
    {
        let (prefix, detail) = match self {
            RuntimeError::InvalidConfiguration(m) => ("invalid runtime configuration: ", Some(m)),
            RuntimeError::NotConfigured => ("runtime is not configured", None),
            RuntimeError::RunNotFound(m) => ("runtime run was not found: ", Some(m)),
            RuntimeError::Database(m) => ("runtime database error: ", Some(m)),
            RuntimeError::Request(m) => ("runtime provider request failed: ", Some(m)),
            RuntimeError::Serialization(m) => ("runtime serialization error: ", Some(m)),
            RuntimeError::Tool(m) => ("application tool failed: ", Some(m)),
        };
        let mut out = prefix.to_owned();
        if let Some(m) = detail {
            crate::strings::append_str(&mut out, m.as_str());
        }
        out
    }
}

#[derive(Clone, Copy, Debug, PartialEq, Eq, Structural)]
pub enum ProviderKind {
    Loopback,
    Https,
}

#[derive(Clone, Copy, Debug, PartialEq, Eq, Structural)]
pub enum SecretStorage {
    Keyring,
    SessionMemory,
    /// No key is stored.
    Absent,
}

/// Configuration as entered; the key is accepted once and never echoed back.
#[derive(Clone)]
pub struct RuntimeConfigurationInput {
    pub provider_kind: ProviderKind,
    pub endpoint: String,
    pub model: String,
    pub api_key: Option<String>,
}

#[derive(Clone, Debug, PartialEq, Eq)]
pub struct RuntimeConfiguration {
    pub configured: bool,
    pub provider_kind: ProviderKind,
    pub endpoint: String,
    pub model: String,
    pub secret_storage: SecretStorage,
    pub api_key_configured: bool,
}

impl Default for RuntimeConfiguration {
    /// An unconfigured loopback provider without a key.
    fn default() -> (r: Self)
        ensures
            !r.configured,
            r.provider_kind == ProviderKind::Loopback,
            r.endpoint@.len() == 0,
            r.model@.len() == 0,
            r.secret_storage == SecretStorage::Absent,
            !r.api_key_configured,
    {
        RuntimeConfiguration {
            configured: false,
            provider_kind: ProviderKind::Loopback,
            endpoint: String::new(),
            model: String::new(),
            secret_storage: SecretStorage::Absent,
            api_key_configured: false,
        }
    }
}

#[derive(Clone, Debug, PartialEq, Eq)]
pub struct RuntimeStatus {
    pub configured: bool,
    pub provider_kind: ProviderKind,
    pub endpoint: String,
    pub model: String,
    pub secret_storage: SecretStorage,
    pub api_key_configured: bool,
    pub active_run_ids: Vec<String>,
    pub recovered_interrupted_runs: u64,
}

#[derive(Clone, Debug, PartialEq, Eq)]
pub struct RunRequest {
    pub project_id: String,
    pub prompt: String,
    pub context: ContextSnapshot,
    pub session_id: Option<String>,
}

#[derive(Clone, Copy, Debug, PartialEq, Eq, Structural)]
pub enum RunState {
    Running,
    AwaitingApproval,
    Completed,
    Cancelled,
    Failed,
}

#[derive(Clone, Debug, PartialEq, Eq)]
pub struct RunHandle {
    pub run_id: String,
    pub session_id: String,
    pub state: RunState,
}

#[derive(Clone, Debug, PartialEq, Eq)]
pub struct HistoryRequest {
    pub project_id: String,
    pub session_id: Option<String>,
    pub limit: usize,
}

/// How many messages a history request returns when it names no limit.
pub fn default_history_limit() -> (r: usize)
    ensures r == 80,
{
    80
}

#[derive(Clone, Copy, Debug, PartialEq, Eq, Structural)]
pub enum MessageRole {
    User,
    Assistant,
    Tool,
}

/// The provider wire role of a stored message.
pub fn message_role_name(role: MessageRole) -> (r: &'static str)
    ensures
        r@ == match role {
            MessageRole::User => "user"@,
            MessageRole::Assistant => "assistant"@,
            MessageRole::Tool => "tool"@,
        },
{
    match role {
        MessageRole::User => "user",
        MessageRole::Assistant => "assistant",
        MessageRole::Tool => "tool",
    }
}

pub open spec fn spec_role_name(role: MessageRole) -> Seq<char> {
    match role {
        MessageRole::User => "user"@,
        MessageRole::Assistant => "assistant"@,
        MessageRole::Tool => "tool"@,
    }
}

/// The role a stored role name stands for.
pub fn message_role_from_name(name: &str) -> (r: Option<MessageRole>)
    ensures
        r matches Some(role) ==> spec_role_name(role) == name@,
        r is None ==> name@ != "user"@ && name@ != "assistant"@ && name@ != "tool"@,
{
    if str_eq(name, "user") {
        Some(MessageRole::User)
    } else if str_eq(name, "assistant") {
        Some(MessageRole::Assistant)
    } else if str_eq(name, "tool") {
        Some(MessageRole::Tool)
    } else {
        None
    }
}

/// A stored role name reads back as the role it was stored for.
pub proof fn role_names_read_back(role: MessageRole)
    ensures
        spec_role_name(role) == "user"@ ==> role == MessageRole::User,
        spec_role_name(role) == "assistant"@ ==> role == MessageRole::Assistant,
        spec_role_name(role) == "tool"@ ==> role == MessageRole::Tool,
{
    reveal_strlit("user");
    reveal_strlit("assistant");
    reveal_strlit("tool");
    assert("user"@[0] != "tool"@[0]);
    assert("user"@.len() != "assistant"@.len());
    assert("tool"@.len() != "assistant"@.len());
}

/// How many messages of a session one history request reads: the requested
/// number, at most 200.
pub fn history_read_limit(requested: usize) -> (r: usize)
    ensures
        r == (if requested < 200 { requested } else { 200 }),
{
    if requested < 200 { requested } else { 200 }
}

#[derive(Clone, Debug, PartialEq, Eq)]
pub struct StoredMessage {
    pub message_id: String,
    pub role: MessageRole,
    pub content: String,
    pub context: Option<ContextSnapshot>,
    pub tool_call_id: Option<String>,
    pub created_at: String,
}

#[derive(Clone, Debug, PartialEq, Eq)]
pub struct SessionHistory {
    pub session_id: String,
    pub project_id: String,
    pub messages: Vec<StoredMessage>,
}

#[derive(Clone, Debug, PartialEq, Eq)]
pub struct SessionSummary {
    pub session_id: String,
    pub project_id: String,
    pub last_message_at: String,
}

#[derive(Clone, Copy, Debug, PartialEq, Eq, Structural)]
pub enum RuntimeEventKind {
    RunStarted,
    ToolStarted,
    ToolFinished,
    AwaitingApproval,
    RunCompleted,
    RunCancelled,
    RunFailed,
}

/// Host methods the model may call, with their OpenAI-compatible function aliases.
pub open spec fn tool_aliases() -> Seq<(Seq<char>, Seq<char>)> {
    seq![
        ("project.get_summary"@, "jueming_project_get_summary"@),
        ("segment.get"@, "jueming_segment_get"@),
        ("alignment.get"@, "jueming_alignment_get"@),
        ("search.execute"@, "jueming_search_execute"@),
        ("search.get_results"@, "jueming_search_get_results"@),
        ("proposal.preview_replace"@, "jueming_proposal_preview_replace"@),
        ("proposal.list"@, "jueming_proposal_list"@),
        ("proposal.reject"@, "jueming_proposal_reject"@),
        ("ui.navigate"@, "jueming_ui_navigate"@),
        ("ui.reveal"@, "jueming_ui_reveal"@),
        ("pipeline.list"@, "jueming_pipeline_list"@),
        ("pipeline.get"@, "jueming_pipeline_get"@),
        ("pipeline.preview_update"@, "jueming_pipeline_preview_update"@),
        ("pipeline.list_proposals"@, "jueming_pipeline_list_proposals"@),
        ("pipeline.execute"@, "jueming_pipeline_execute"@),
    ]
}

/// The alias of a host method, if the model may call it.
pub open spec fn alias_of(table: Seq<(Seq<char>, Seq<char>)>, host: Seq<char>) -> Option<Seq<char>>
    decreases table.len(),
{
    if table.len() == 0 {
        None
    } else if table[0].0 == host {
        Some(table[0].1)
    } else {
        alias_of(table.drop_first(), host)
    }
}

/// The host method an alias stands for.
pub open spec fn method_of(table: Seq<(Seq<char>, Seq<char>)>, alias: Seq<char>) -> Option<Seq<char>>
    decreases table.len(),
{
    if table.len() == 0 {
        None
    } else if table[0].1 == alias {
        Some(table[0].0)
    } else {
        method_of(table.drop_first(), alias)
    }
}

/// Both columns of an alias table are free of repeats.
pub open spec fn aliases_unique(table: Seq<(Seq<char>, Seq<char>)>) -> bool {
    forall|i: int, j: int| 0 <= i < j < table.len() ==> table[i].0 != table[j].0 && table[i].1 != table[j].1
}

/// No entry from the `j`-th on shares a method or an alias with entry `i`.
pub open spec fn distinct_from(table: Seq<(Seq<char>, Seq<char>)>, i: int, j: int) -> bool
    decreases table.len() - j,
{
    if j >= table.len() || j < 0 {
        true
    } else {
        table[i].0 != table[j].0 && table[i].1 != table[j].1 && distinct_from(table, i, j + 1)
    }
}

/// No two entries from the `i`-th on share a method or an alias.
pub open spec fn all_distinct(table: Seq<(Seq<char>, Seq<char>)>, i: int) -> bool
    decreases table.len() - i,
{
    if i >= table.len() || i < 0 {
        true
    } else {
        distinct_from(table, i, i + 1) && all_distinct(table, i + 1)
    }
}

proof fn lemma_distinct_from(table: Seq<(Seq<char>, Seq<char>)>, i: int, j: int, k: int)
    requires
        0 <= j <= k < table.len(),
        distinct_from(table, i, j),
    ensures
        table[i].0 != table[k].0 && table[i].1 != table[k].1,
    decreases k - j,
{
    if j < k {
        lemma_distinct_from(table, i, j + 1, k);
    }
}

proof fn lemma_all_distinct(table: Seq<(Seq<char>, Seq<char>)>, i: int, a: int, b: int)
    requires
        0 <= i <= a < b < table.len(),
        all_distinct(table, i),
    ensures
        table[a].0 != table[b].0 && table[a].1 != table[b].1,
    decreases a - i,
{
    if i < a {
        lemma_all_distinct(table, i + 1, a, b);
    } else {
        lemma_distinct_from(table, a, a + 1, b);
    }
}

proof fn lemma_alias_found(table: Seq<(Seq<char>, Seq<char>)>, host: Seq<char>)
    ensures
        alias_of(table, host) matches Some(a) ==> exists|k: int| 0 <= k < table.len() && table[k] == (host, a),
        method_of(table, host) matches Some(m) ==> exists|k: int| 0 <= k < table.len() && table[k] == (m, host),
    decreases table.len(),
{
    if table.len() > 0 {
        lemma_alias_found(table.drop_first(), host);
        if alias_of(table.drop_first(), host) is Some && table[0].0 != host {
            let k = choose|k: int| 0 <= k < table.len() - 1 && table.drop_first()[k] == (host, alias_of(table, host)->0);
            assert(table[k + 1] == (host, alias_of(table, host)->0));
        }
        if method_of(table.drop_first(), host) is Some && table[0].1 != host {
            let k = choose|k: int| 0 <= k < table.len() - 1 && table.drop_first()[k] == (method_of(table, host)->0, host);
            assert(table[k + 1] == (method_of(table, host)->0, host));
        }
    }
}

proof fn lemma_alias_round_trip(table: Seq<(Seq<char>, Seq<char>)>, host: Seq<char>, alias: Seq<char>)
    requires
        aliases_unique(table),
    ensures
        alias_of(table, host) == Some(alias) <==> method_of(table, alias) == Some(host),
    decreases table.len(),
{
    if table.len() > 0 {
        let rest = table.drop_first();
        assert(aliases_unique(rest)) by {
            assert forall|i: int, j: int| 0 <= i < j < rest.len() implies rest[i].0 != rest[j].0 && rest[i].1 != rest[j].1 by {
                assert(rest[i] == table[i + 1] && rest[j] == table[j + 1]);
            }
        }
        lemma_alias_round_trip(rest, host, alias);
        lemma_alias_found(rest, host);
        lemma_alias_found(rest, alias);
        if table[0].0 == host && table[0].1 != alias {
            if method_of(rest, alias) == Some(host) {
                let k = choose|k: int| 0 <= k < rest.len() && rest[k] == (host, alias);
                assert(table[k + 1].0 == table[0].0);
            }
        }
        if table[0].1 == alias && table[0].0 != host {
            if alias_of(rest, host) == Some(alias) {
                let k = choose|k: int| 0 <= k < rest.len() && rest[k] == (host, alias);
                assert(table[k + 1].1 == table[0].1);
            }
        }
    }
}

/// No method or alias occurs twice in the alias table: the literals differ
/// in length, or at the position named.
proof fn lemma_tool_aliases_distinct()
    ensures
        all_distinct(tool_aliases(), 0),
{
    reveal_strlit("project.get_summary");
    assert("project.get_summary"@.len() == 19);
    reveal_strlit("jueming_project_get_summary");
    assert("jueming_project_get_summary"@.len() == 27);
    reveal_strlit("segment.get");
    assert("segment.get"@.len() == 11);
    reveal_strlit("jueming_segment_get");
    assert("jueming_segment_get"@.len() == 19);
    reveal_strlit("alignment.get");
    assert("alignment.get"@.len() == 13);
    reveal_strlit("jueming_alignment_get");
    assert("jueming_alignment_get"@.len() == 21);
    reveal_strlit("search.execute");
    assert("search.execute"@.len() == 14);
    reveal_strlit("jueming_search_execute");
    assert("jueming_search_execute"@.len() == 22);
    reveal_strlit("search.get_results");
    assert("search.get_results"@.len() == 18);
    reveal_strlit("jueming_search_get_results");
    assert("jueming_search_get_results"@.len() == 26);
    reveal_strlit("proposal.preview_replace");
    assert("proposal.preview_replace"@.len() == 24);
    reveal_strlit("jueming_proposal_preview_replace");
    assert("jueming_proposal_preview_replace"@.len() == 32);
    reveal_strlit("proposal.list");
    assert("proposal.list"@.len() == 13);
    reveal_strlit("jueming_proposal_list");
    assert("jueming_proposal_list"@.len() == 21);
    reveal_strlit("proposal.reject");
    assert("proposal.reject"@.len() == 15);
    reveal_strlit("jueming_proposal_reject");
    assert("jueming_proposal_reject"@.len() == 23);
    reveal_strlit("ui.navigate");
    assert("ui.navigate"@.len() == 11);
    reveal_strlit("jueming_ui_navigate");
    assert("jueming_ui_navigate"@.len() == 19);
    reveal_strlit("ui.reveal");
    assert("ui.reveal"@.len() == 9);
    reveal_strlit("jueming_ui_reveal");
    assert("jueming_ui_reveal"@.len() == 17);
    reveal_strlit("pipeline.list");
    assert("pipeline.list"@.len() == 13);
    reveal_strlit("jueming_pipeline_list");
    assert("jueming_pipeline_list"@.len() == 21);
    reveal_strlit("pipeline.get");
    assert("pipeline.get"@.len() == 12);
    reveal_strlit("jueming_pipeline_get");
    assert("jueming_pipeline_get"@.len() == 20);
    reveal_strlit("pipeline.preview_update");
    assert("pipeline.preview_update"@.len() == 23);
    reveal_strlit("jueming_pipeline_preview_update");
    assert("jueming_pipeline_preview_update"@.len() == 31);
    reveal_strlit("pipeline.list_proposals");
    assert("pipeline.list_proposals"@.len() == 23);
    reveal_strlit("jueming_pipeline_list_proposals");
    assert("jueming_pipeline_list_proposals"@.len() == 31);
    reveal_strlit("pipeline.execute");
    assert("pipeline.execute"@.len() == 16);
    reveal_strlit("jueming_pipeline_execute");
    assert("jueming_pipeline_execute"@.len() == 24);
    assert("segment.get"@[0] != "ui.navigate"@[0]);
    assert("alignment.get"@[0] != "proposal.list"@[0]);
    assert("alignment.get"@[0] != "pipeline.list"@[0]);
    assert("proposal.list"@[1] != "pipeline.list"@[1]);
    assert("pipeline.preview_update"@[9] != "pipeline.list_proposals"@[9]);
    assert("jueming_segment_get"@[8] != "jueming_ui_navigate"@[8]);
    assert("jueming_alignment_get"@[8] != "jueming_proposal_list"@[8]);
    assert("jueming_alignment_get"@[8] != "jueming_pipeline_list"@[8]);
    assert("jueming_proposal_list"@[9] != "jueming_pipeline_list"@[9]);
    assert("jueming_pipeline_preview_update"@[17] != "jueming_pipeline_list_proposals"@[17]);
    reveal_with_fuel(all_distinct, 16);
    reveal_with_fuel(distinct_from, 16);
}

/// The function aliases offered to the model read back: a host method's
/// alias stands for that method, and an alias's method has that alias.
pub proof fn tool_aliases_read_back(host: Seq<char>, alias: Seq<char>)
    ensures
        alias_of(tool_aliases(), host) == Some(alias) <==> method_of(tool_aliases(), alias) == Some(host),
{
    lemma_tool_aliases_distinct();
    assert forall|i: int, j: int| 0 <= i < j < tool_aliases().len() implies tool_aliases()[i].0 != tool_aliases()[j].0
        && tool_aliases()[i].1 != tool_aliases()[j].1 by {
        lemma_all_distinct(tool_aliases(), 0, i, j);
    }
    lemma_alias_round_trip(tool_aliases(), host, alias);
}

proof fn lemma_alias_at(table: Seq<(Seq<char>, Seq<char>)>, i: int)
    requires
        aliases_unique(table),
        0 <= i < table.len(),
    ensures
        alias_of(table, table[i].0) == Some(table[i].1),
    decreases i,
{
    if i > 0 {
        let rest = table.drop_first();
        assert(aliases_unique(rest)) by {
            assert forall|a: int, b: int| 0 <= a < b < rest.len() implies rest[a].0 != rest[b].0 && rest[a].1 != rest[b].1 by {
                assert(rest[a] == table[a + 1] && rest[b] == table[b + 1]);
            }
        }
        assert(rest[i - 1] == table[i]);
        lemma_alias_at(rest, i - 1);
    }
}

/// The alias table holds no method or alias twice.
pub proof fn tool_aliases_are_unique()
    ensures
        aliases_unique(tool_aliases()),
{
    lemma_tool_aliases_distinct();
    assert forall|i: int, j: int| 0 <= i < j < tool_aliases().len() implies tool_aliases()[i].0 != tool_aliases()[j].0
        && tool_aliases()[i].1 != tool_aliases()[j].1 by {
        lemma_all_distinct(tool_aliases(), 0, i, j);
    }
}

/// Each method of the alias table is offered under the alias beside it.
pub proof fn tool_alias_of_entry(i: int)
    requires
        0 <= i < tool_aliases().len(),
    ensures
        alias_of(tool_aliases(), tool_aliases()[i].0) == Some(tool_aliases()[i].1),
        method_of(tool_aliases(), tool_aliases()[i].1) == Some(tool_aliases()[i].0),
{
    tool_aliases_are_unique();
    lemma_alias_at(tool_aliases(), i);
    lemma_alias_round_trip(tool_aliases(), tool_aliases()[i].0, tool_aliases()[i].1);
}

/// `.` as `_`, every other character as it is.
pub open spec fn underscore(c: char) -> char {
    if c == '.' { '_' } else { c }
}

/// The alias spelling of a host method: `jueming_` and the method with its
/// dots made underscores.
pub open spec fn alias_spelling(method: Seq<char>) -> Seq<char> {
    "jueming_"@ + method.map_values(|c: char| underscore(c))
}

/// Every alias the model is offered is the spelling of its host method.
pub proof fn aliases_are_spelled_from_methods()
    ensures
        forall|i: int| 0 <= i < tool_aliases().len() ==> #[trigger] tool_aliases()[i].1 == alias_spelling(tool_aliases()[i].0),
{
    assert("jueming_project_get_summary"@ =~= alias_spelling("project.get_summary"@)) by {
        reveal_strlit("project.get_summary");
        reveal_strlit("jueming_project_get_summary");
        reveal_strlit("jueming_");
        assert("project.get_summary"@.len() == 19);
        assert("jueming_project_get_summary"@.len() == 27);
        assert("jueming_"@.len() == 8);
    }
    assert("jueming_segment_get"@ =~= alias_spelling("segment.get"@)) by {
        reveal_strlit("segment.get");
        reveal_strlit("jueming_segment_get");
        reveal_strlit("jueming_");
        assert("segment.get"@.len() == 11);
        assert("jueming_segment_get"@.len() == 19);
        assert("jueming_"@.len() == 8);
    }
    assert("jueming_alignment_get"@ =~= alias_spelling("alignment.get"@)) by {
        reveal_strlit("alignment.get");
        reveal_strlit("jueming_alignment_get");
        reveal_strlit("jueming_");
        assert("alignment.get"@.len() == 13);
        assert("jueming_alignment_get"@.len() == 21);
        assert("jueming_"@.len() == 8);
    }
    assert("jueming_search_execute"@ =~= alias_spelling("search.execute"@)) by {
        reveal_strlit("search.execute");
        reveal_strlit("jueming_search_execute");
        reveal_strlit("jueming_");
        assert("search.execute"@.len() == 14);
        assert("jueming_search_execute"@.len() == 22);
        assert("jueming_"@.len() == 8);
    }
    assert("jueming_search_get_results"@ =~= alias_spelling("search.get_results"@)) by {
        reveal_strlit("search.get_results");
        reveal_strlit("jueming_search_get_results");
        reveal_strlit("jueming_");
        assert("search.get_results"@.len() == 18);
        assert("jueming_search_get_results"@.len() == 26);
        assert("jueming_"@.len() == 8);
    }
    assert("jueming_proposal_preview_replace"@ =~= alias_spelling("proposal.preview_replace"@)) by {
        reveal_strlit("proposal.preview_replace");
        reveal_strlit("jueming_proposal_preview_replace");
        reveal_strlit("jueming_");
        assert("proposal.preview_replace"@.len() == 24);
        assert("jueming_proposal_preview_replace"@.len() == 32);
        assert("jueming_"@.len() == 8);
    }
    assert("jueming_proposal_list"@ =~= alias_spelling("proposal.list"@)) by {
        reveal_strlit("proposal.list");
        reveal_strlit("jueming_proposal_list");
        reveal_strlit("jueming_");
        assert("proposal.list"@.len() == 13);
        assert("jueming_proposal_list"@.len() == 21);
        assert("jueming_"@.len() == 8);
    }
    assert("jueming_proposal_reject"@ =~= alias_spelling("proposal.reject"@)) by {
        reveal_strlit("proposal.reject");
        reveal_strlit("jueming_proposal_reject");
        reveal_strlit("jueming_");
        assert("proposal.reject"@.len() == 15);
        assert("jueming_proposal_reject"@.len() == 23);
        assert("jueming_"@.len() == 8);
    }
    assert("jueming_ui_navigate"@ =~= alias_spelling("ui.navigate"@)) by {
        reveal_strlit("ui.navigate");
        reveal_strlit("jueming_ui_navigate");
        reveal_strlit("jueming_");
        assert("ui.navigate"@.len() == 11);
        assert("jueming_ui_navigate"@.len() == 19);
        assert("jueming_"@.len() == 8);
    }
    assert("jueming_ui_reveal"@ =~= alias_spelling("ui.reveal"@)) by {
        reveal_strlit("ui.reveal");
        reveal_strlit("jueming_ui_reveal");
        reveal_strlit("jueming_");
        assert("ui.reveal"@.len() == 9);
        assert("jueming_ui_reveal"@.len() == 17);
        assert("jueming_"@.len() == 8);
    }
    assert("jueming_pipeline_list"@ =~= alias_spelling("pipeline.list"@)) by {
        reveal_strlit("pipeline.list");
        reveal_strlit("jueming_pipeline_list");
        reveal_strlit("jueming_");
        assert("pipeline.list"@.len() == 13);
        assert("jueming_pipeline_list"@.len() == 21);
        assert("jueming_"@.len() == 8);
    }
    assert("jueming_pipeline_get"@ =~= alias_spelling("pipeline.get"@)) by {
        reveal_strlit("pipeline.get");
        reveal_strlit("jueming_pipeline_get");
        reveal_strlit("jueming_");
        assert("pipeline.get"@.len() == 12);
        assert("jueming_pipeline_get"@.len() == 20);
        assert("jueming_"@.len() == 8);
    }
    assert("jueming_pipeline_preview_update"@ =~= alias_spelling("pipeline.preview_update"@)) by {
        reveal_strlit("pipeline.preview_update");
        reveal_strlit("jueming_pipeline_preview_update");
        reveal_strlit("jueming_");
        assert("pipeline.preview_update"@.len() == 23);
        assert("jueming_pipeline_preview_update"@.len() == 31);
        assert("jueming_"@.len() == 8);
    }
    assert("jueming_pipeline_list_proposals"@ =~= alias_spelling("pipeline.list_proposals"@)) by {
        reveal_strlit("pipeline.list_proposals");
        reveal_strlit("jueming_pipeline_list_proposals");
        reveal_strlit("jueming_");
        assert("pipeline.list_proposals"@.len() == 23);
        assert("jueming_pipeline_list_proposals"@.len() == 31);
        assert("jueming_"@.len() == 8);
    }
    assert("jueming_pipeline_execute"@ =~= alias_spelling("pipeline.execute"@)) by {
        reveal_strlit("pipeline.execute");
        reveal_strlit("jueming_pipeline_execute");
        reveal_strlit("jueming_");
        assert("pipeline.execute"@.len() == 16);
        assert("jueming_pipeline_execute"@.len() == 24);
        assert("jueming_"@.len() == 8);
    }
    assert forall|i: int| 0 <= i < tool_aliases().len() implies #[trigger] tool_aliases()[i].1 == alias_spelling(tool_aliases()[i].0) by {
    }
}

fn tool_alias_table() -> (r: Vec<(&'static str, &'static str)>)
    ensures
        r@.map_values(|p: (&'static str, &'static str)| (p.0@, p.1@)) == tool_aliases(),
{
    let r = vec![
        ("project.get_summary", "jueming_project_get_summary"),
        ("segment.get", "jueming_segment_get"),
        ("alignment.get", "jueming_alignment_get"),
        ("search.execute", "jueming_search_execute"),
        ("search.get_results", "jueming_search_get_results"),
        ("proposal.preview_replace", "jueming_proposal_preview_replace"),
        ("proposal.list", "jueming_proposal_list"),
        ("proposal.reject", "jueming_proposal_reject"),
        ("ui.navigate", "jueming_ui_navigate"),
        ("ui.reveal", "jueming_ui_reveal"),
        ("pipeline.list", "jueming_pipeline_list"),
        ("pipeline.get", "jueming_pipeline_get"),
        ("pipeline.preview_update", "jueming_pipeline_preview_update"),
        ("pipeline.list_proposals", "jueming_pipeline_list_proposals"),
        ("pipeline.execute", "jueming_pipeline_execute"),
    ];
    assert(r@.map_values(|p: (&'static str, &'static str)| (p.0@, p.1@)) =~= tool_aliases());
    r
}

/// The OpenAI-compatible function name of a host method.
pub fn provider_tool_name(host_method: &str) -> (r: Result<&'static str, RuntimeError>)
    ensures
        match alias_of(tool_aliases(), host_method@) {
            Some(a) => r matches Ok(n) && n@ == a,
            None => r matches Err(RuntimeError::InvalidConfiguration(m))
                && m@ == "no OpenAI-compatible function alias for host method "@ + host_method@,
        },
{
    let table = tool_alias_table();
    let ghost models = table@.map_values(|p: (&'static str, &'static str)| (p.0@, p.1@));
    let mut i: usize = 0;
    assert(models.skip(0) == models);
    while i < table.len()
        invariant
            0 <= i <= table@.len(),
            models == table@.map_values(|p: (&'static str, &'static str)| (p.0@, p.1@)),
            models == tool_aliases(),
            alias_of(models.skip(i as int), host_method@) == alias_of(tool_aliases(), host_method@),
        decreases table@.len() - i,
    {
        assert(models.skip(i as int).drop_first() == models.skip(i as int + 1));
        assert(models.skip(i as int)[0] == (table@[i as int].0@, table@[i as int].1@));
        if str_eq(table[i].0, host_method) {
            return Ok(table[i].1);
        }
        i += 1;
    }
    let mut message = "no OpenAI-compatible function alias for host method ".to_owned();
    append_str(&mut message, host_method);
    Err(RuntimeError::InvalidConfiguration(message))
}

/// The host method an OpenAI-compatible function name stands for.
pub fn host_tool_method(provider_name: &str) -> (r: Result<&'static str, RuntimeError>)
    ensures
        match method_of(tool_aliases(), provider_name@) {
            Some(m) => r matches Ok(n) && n@ == m,
            None => r matches Err(RuntimeError::InvalidConfiguration(e)) && e@ == "provider returned an unknown function name"@,
        },
{
    let table = tool_alias_table();
    let ghost models = table@.map_values(|p: (&'static str, &'static str)| (p.0@, p.1@));
    let mut i: usize = 0;
    assert(models.skip(0) == models);
    while i < table.len()
        invariant
            0 <= i <= table@.len(),
            models == table@.map_values(|p: (&'static str, &'static str)| (p.0@, p.1@)),
            models == tool_aliases(),
            method_of(models.skip(i as int), provider_name@) == method_of(tool_aliases(), provider_name@),
        decreases table@.len() - i,
    {
        assert(models.skip(i as int).drop_first() == models.skip(i as int + 1));
        assert(models.skip(i as int)[0] == (table@[i as int].0@, table@[i as int].1@));
        if str_eq(table[i].1, provider_name) {
            return Ok(table[i].0);
        }
        i += 1;
    }
    Err(RuntimeError::InvalidConfiguration("provider returned an unknown function name".to_owned()))
}

/// A host method offered to the model: its name, what it does, and the JSON
/// schema of its parameters, as JSON text.
#[derive(Clone, Copy, Debug)]
pub struct ToolSchema {
    pub name: &'static str,
    pub description: &'static str,
    pub parameters: &'static str,
}

/// What each offered tool does and the JSON schema of its parameters, in catalog order.
pub open spec fn tool_texts() -> Seq<(Seq<char>, Seq<char>)> {
    seq![
        ("Read the current local project summary."@, r#"{"type":"object","properties":{},"additionalProperties":false}"#@),
        ("Read one stable segment UUID."@, r#"{"type":"object","properties":{"segment_id":{"type":"string"}},"additionalProperties":false}"#@),
        ("Read one stable alignment UUID."@, r#"{"type":"object","properties":{"alignment_id":{"type":"string"}},"additionalProperties":false}"#@),
        ("Execute one atomic local search against the expected revision."@, r#"{"type":"object","properties":{"spec":{"type":"object","properties":{"query":{"type":"string"},"regex":{"type":"boolean"},"case_sensitive":{"type":"boolean"},"language_id":{"type":["string","null"]}},"required":["query","regex","case_sensitive"],"additionalProperties":false},"expected_revision_id":{"type":"string"},"page_size":{"type":"integer","minimum":1,"maximum":200}},"required":["spec","expected_revision_id"],"additionalProperties":false}"#@),
        ("Read current local search results."@, r#"{"type":"object","properties":{"session_id":{"type":"string"},"cursor":{"type":"integer","minimum":0},"page_size":{"type":"integer","minimum":1,"maximum":200}},"required":["session_id"],"additionalProperties":false}"#@),
        ("Stage a reviewable replacement proposal; it requires native approval."@, r#"{"type":"object","properties":{"query":{"type":"string"},"replacement":{"type":"string"},"regex":{"type":"boolean"},"case_sensitive":{"type":"boolean"},"language_id":{"type":["string","null"]},"selected_segment_ids":{"type":"array","items":{"type":"string"}}},"required":["query","replacement","regex","case_sensitive"],"additionalProperties":false}"#@),
        ("List staged replacement proposals."@, r#"{"type":"object","properties":{},"additionalProperties":false}"#@),
        ("Reject a staged proposal."@, r#"{"type":"object","properties":{"proposal_id":{"type":"string"}},"additionalProperties":false}"#@),
        ("Request trusted UI navigation."@, r#"{"type":"object","properties":{"tab":{"type":"string"},"request_id":{"type":"string"}},"additionalProperties":false}"#@),
        ("Request trusted UI reveal by stable ID."@, r#"{"type":"object","properties":{"segment_id":{"type":"string"},"alignment_id":{"type":"string"},"node_id":{"type":"string"},"request_id":{"type":"string"}},"required":["request_id"],"additionalProperties":false}"#@),
        ("List local pipeline methods available to the current project binding."@, r#"{"type":"object","properties":{},"additionalProperties":false}"#@),
        ("Read one pipeline method by its stable method_id."@, r#"{"type":"object","properties":{"method_id":{"type":"string"}},"additionalProperties":false}"#@),
        ("Stage a durable, reviewable pipeline update proposal; native UI owns approval."@, r#"{"type":"object","properties":{"request":{"type":"object"}},"additionalProperties":false}"#@),
        ("List durable pipeline update proposals for the current project binding."@, r#"{"type":"object","properties":{},"additionalProperties":false}"#@),
        ("Execute a selected method to create a non-canonical derived artifact."@, r#"{"type":"object","properties":{"method_id":{"type":"string"},"method_revision_id":{"type":["string","null"]},"segment_id":{"type":"string"},"base_revision_id":{"type":"string"}},"additionalProperties":false}"#@),
    ]
}

/// The host methods offered to the model, in the order of the alias table.
pub fn tool_catalog() -> (r: Vec<ToolSchema>)
    ensures
        r@.len() == tool_aliases().len(),
        forall|i: int| 0 <= i < r@.len() ==> (#[trigger] r@[i]).name@ == tool_aliases()[i].0
            && r@[i].description@ == tool_texts()[i].0 && r@[i].parameters@ == tool_texts()[i].1,
{
    let r = vec![
        ToolSchema {
            name: "project.get_summary",
            description: "Read the current local project summary.",
            parameters: r#"{"type":"object","properties":{},"additionalProperties":false}"#,
        },
        ToolSchema {
            name: "segment.get",
            description: "Read one stable segment UUID.",
            parameters: r#"{"type":"object","properties":{"segment_id":{"type":"string"}},"additionalProperties":false}"#,
        },
        ToolSchema {
            name: "alignment.get",
            description: "Read one stable alignment UUID.",
            parameters: r#"{"type":"object","properties":{"alignment_id":{"type":"string"}},"additionalProperties":false}"#,
        },
        ToolSchema {
            name: "search.execute",
            description: "Execute one atomic local search against the expected revision.",
            parameters: r#"{"type":"object","properties":{"spec":{"type":"object","properties":{"query":{"type":"string"},"regex":{"type":"boolean"},"case_sensitive":{"type":"boolean"},"language_id":{"type":["string","null"]}},"required":["query","regex","case_sensitive"],"additionalProperties":false},"expected_revision_id":{"type":"string"},"page_size":{"type":"integer","minimum":1,"maximum":200}},"required":["spec","expected_revision_id"],"additionalProperties":false}"#,
        },
        ToolSchema {
            name: "search.get_results",
            description: "Read current local search results.",
            parameters: r#"{"type":"object","properties":{"session_id":{"type":"string"},"cursor":{"type":"integer","minimum":0},"page_size":{"type":"integer","minimum":1,"maximum":200}},"required":["session_id"],"additionalProperties":false}"#,
        },
        ToolSchema {
            name: "proposal.preview_replace",
            description: "Stage a reviewable replacement proposal; it requires native approval.",
            parameters: r#"{"type":"object","properties":{"query":{"type":"string"},"replacement":{"type":"string"},"regex":{"type":"boolean"},"case_sensitive":{"type":"boolean"},"language_id":{"type":["string","null"]},"selected_segment_ids":{"type":"array","items":{"type":"string"}}},"required":["query","replacement","regex","case_sensitive"],"additionalProperties":false}"#,
        },
        ToolSchema {
            name: "proposal.list",
            description: "List staged replacement proposals.",
            parameters: r#"{"type":"object","properties":{},"additionalProperties":false}"#,
        },
        ToolSchema {
            name: "proposal.reject",
            description: "Reject a staged proposal.",
            parameters: r#"{"type":"object","properties":{"proposal_id":{"type":"string"}},"additionalProperties":false}"#,
        },
        ToolSchema {
            name: "ui.navigate",
            description: "Request trusted UI navigation.",
            parameters: r#"{"type":"object","properties":{"tab":{"type":"string"},"request_id":{"type":"string"}},"additionalProperties":false}"#,
        },
        ToolSchema {
            name: "ui.reveal",
            description: "Request trusted UI reveal by stable ID.",
            parameters: r#"{"type":"object","properties":{"segment_id":{"type":"string"},"alignment_id":{"type":"string"},"node_id":{"type":"string"},"request_id":{"type":"string"}},"required":["request_id"],"additionalProperties":false}"#,
        },
        ToolSchema {
            name: "pipeline.list",
            description: "List local pipeline methods available to the current project binding.",
            parameters: r#"{"type":"object","properties":{},"additionalProperties":false}"#,
        },
        ToolSchema {
            name: "pipeline.get",
            description: "Read one pipeline method by its stable method_id.",
            parameters: r#"{"type":"object","properties":{"method_id":{"type":"string"}},"additionalProperties":false}"#,
        },
        ToolSchema {
            name: "pipeline.preview_update",
            description: "Stage a durable, reviewable pipeline update proposal; native UI owns approval.",
            parameters: r#"{"type":"object","properties":{"request":{"type":"object"}},"additionalProperties":false}"#,
        },
        ToolSchema {
            name: "pipeline.list_proposals",
            description: "List durable pipeline update proposals for the current project binding.",
            parameters: r#"{"type":"object","properties":{},"additionalProperties":false}"#,
        },
        ToolSchema {
            name: "pipeline.execute",
            description: "Execute a selected method to create a non-canonical derived artifact.",
            parameters: r#"{"type":"object","properties":{"method_id":{"type":"string"},"method_revision_id":{"type":["string","null"]},"segment_id":{"type":"string"},"base_revision_id":{"type":"string"}},"additionalProperties":false}"#,
        },
    ];
    assert(r@.len() == tool_aliases().len());
    r
}

proof fn lemma_alias_lookup(table: Seq<(Seq<char>, Seq<char>)>, host: Seq<char>)
    ensures
        alias_of(table, host) is Some <==> exists|i: int| 0 <= i < table.len() && #[trigger] table[i].0 == host,
    decreases table.len(),
{
    if table.len() > 0 {
        lemma_alias_lookup(table.drop_first(), host);
        if alias_of(table.drop_first(), host) is Some {
            let i = choose|i: int| 0 <= i < table.drop_first().len() && #[trigger] table.drop_first()[i].0 == host;
            assert(table[i + 1].0 == host);
        }
        if exists|i: int| 0 <= i < table.len() && #[trigger] table[i].0 == host {
            let i = choose|i: int| 0 <= i < table.len() && #[trigger] table[i].0 == host;
            if i > 0 {
                assert(table.drop_first()[i - 1].0 == host);
            }
        }
    }
}

/// The model may call exactly the host methods of the tool catalog.
pub proof fn allowed_tools_are_the_catalog(name: Seq<char>)
    ensures
        alias_of(tool_aliases(), name) is Some <==> exists|i: int| 0 <= i < tool_aliases().len() && #[trigger] tool_aliases()[i].0 == name,
{
    lemma_alias_lookup(tool_aliases(), name);
}

/// Whether the model may call a host method.
pub fn allowed_tool(name: &str) -> (r: bool)
    ensures
        r == (alias_of(tool_aliases(), name@) is Some),
{
    provider_tool_name(name).is_ok()
}


/// What URL parsing yields for an endpoint: its scheme and host (empty when
/// it has none), or the parser's error message.
pub uninterp spec fn url_parse_result(endpoint: Seq<char>) -> Result<(Seq<char>, Seq<char>), Seq<char>>;

/// Parses with `reqwest::Url::parse` and reads `Url::scheme` and
/// `Url::host_str` (empty when absent), or renders the `url::ParseError`
/// with `to_string`. The outcome is named `url_parse_result`.
#[verifier::external_body]
fn parse_endpoint(endpoint: &str) -> (r: Result<(String, String), String>)
    ensures
        match url_parse_result(endpoint@) {
            Ok((scheme, host)) => r matches Ok((a, b)) && a@ == scheme && b@ == host,
            Err(m) => r matches Err(e) && e@ == m,
        },
{
    match reqwest::Url::parse(endpoint) {
        Ok(url) => Ok((url.scheme().to_owned(), url.host_str().unwrap_or_default().to_owned())),
        Err(error) => Err(error.to_string()),
    }
}

/// Why a configuration is refused, if it is: an empty model, an unparsable
/// endpoint, a loopback provider off http(s) or off localhost, or a remote
/// provider without https.
pub open spec fn configuration_problem(kind: ProviderKind, endpoint: Seq<char>, model: Seq<char>) -> Option<Seq<char>> {
    if trim(model).len() == 0 {
        Some("model must not be empty"@)
    } else {
        match url_parse_result(endpoint) {
            Err(m) => Some(m),
            Ok((scheme, host)) => match kind {
                ProviderKind::Loopback => if scheme != "http"@ && scheme != "https"@ {
                    Some("loopback endpoint must use http or https"@)
                } else if host != "localhost"@ && host != "127.0.0.1"@ && host != "::1"@ {
                    Some("loopback provider must use localhost"@)
                } else {
                    None
                },
                ProviderKind::Https => if scheme != "https"@ {
                    Some("remote provider must use https"@)
                } else {
                    None
                },
            },
        }
    }
}

pub fn validate_configuration(input: &RuntimeConfigurationInput) -> (r: Result<(), RuntimeError>)
    ensures
        match configuration_problem(input.provider_kind, input.endpoint@, input.model@) {
            None => r is Ok,
            Some(m) => r matches Err(RuntimeError::InvalidConfiguration(e)) && e@ == m,
        },
{
    let model = chars_of(input.model.as_str());
    if is_blank(&model) {
        return Err(RuntimeError::InvalidConfiguration("model must not be empty".to_owned()));
    }
    let (scheme, host) = match parse_endpoint(input.endpoint.as_str()) {
        Ok(parts) => parts,
        Err(message) => return Err(RuntimeError::InvalidConfiguration(message)),
    };
    match input.provider_kind {
        ProviderKind::Loopback => {
            if !str_eq(scheme.as_str(), "http") && !str_eq(scheme.as_str(), "https") {
                return Err(RuntimeError::InvalidConfiguration("loopback endpoint must use http or https".to_owned()));
            }
            if !str_eq(host.as_str(), "localhost") && !str_eq(host.as_str(), "127.0.0.1") && !str_eq(host.as_str(), "::1") {
                return Err(RuntimeError::InvalidConfiguration("loopback provider must use localhost".to_owned()));
            }
        },
        ProviderKind::Https => {
            if !str_eq(scheme.as_str(), "https") {
                return Err(RuntimeError::InvalidConfiguration("remote provider must use https".to_owned()));
            }
        },
    }
    Ok(())
}

/// The endpoint without trailing slashes.
pub open spec fn strip_trailing_slashes(s: Seq<char>) -> Seq<char>
    decreases s.len(),
{
    if s.len() > 0 && s.last() == '/' {
        strip_trailing_slashes(s.drop_last())
    } else {
        s
    }
}

/// Whether a configuration input brings a key: one that is not blank.
pub fn key_given(api_key: &Option<String>) -> (r: bool)
    ensures
        r == (api_key matches Some(k) && crate::text::trim(k@).len() > 0),
{
    match api_key {
        Some(k) => crate::text::trim_chars(&chars_of(k.as_str())).len() > 0,
        None => false,
    }
}

/// What a configuration records of the provider's key: `saved` is where a
/// key given with the input was stored, `held` where a key the vault already
/// holds for the configuration's scope is kept. A given key wins; either
/// marks the key configured; with neither the configuration is unchanged.
pub fn with_key_status(c: RuntimeConfiguration, saved: Option<SecretStorage>, held: Option<SecretStorage>) -> (r: RuntimeConfiguration)
    ensures
        match (saved, held) {
            (Some(s), _) => r == (RuntimeConfiguration { secret_storage: s, api_key_configured: true, ..c }),
            (None, Some(s)) => r == (RuntimeConfiguration { secret_storage: s, api_key_configured: true, ..c }),
            (None, None) => r == c,
        },
{
    let storage = match saved {
        Some(s) => s,
        None => match held {
            Some(s) => s,
            None => return c,
        },
    };
    RuntimeConfiguration { secret_storage: storage, api_key_configured: true, ..c }
}

/// The configuration an accepted input records before any key is stored:
/// the endpoint ends in exactly one slash.
pub fn configuration_from_input(input: &RuntimeConfigurationInput) -> (r: RuntimeConfiguration)
    ensures
        r.configured,
        r.provider_kind == input.provider_kind,
        r.endpoint@ == strip_trailing_slashes(input.endpoint@).push('/'),
        r.model@ == input.model@,
        r.secret_storage == SecretStorage::Absent,
        !r.api_key_configured,
{
    let cs = chars_of(input.endpoint.as_str());
    let mut end = cs.len();
    assert(cs@.take(cs@.len() as int) == cs@);
    while end > 0 && cs[end - 1] == '/'
        invariant
            0 <= end <= cs@.len(),
            strip_trailing_slashes(cs@) == strip_trailing_slashes(cs@.take(end as int)),
        decreases end,
    {
        assert(cs@.take(end as int).drop_last() == cs@.take(end as int - 1));
        end -= 1;
    }
    proof {
        assert(cs@.take(cs@.len() as int) == cs@);
    }
    let mut kept = crate::text::copy_range(&cs, 0, end);
    assert(kept@ == cs@.take(end as int));
    kept.push('/');
    RuntimeConfiguration {
        configured: true,
        provider_kind: input.provider_kind,
        endpoint: crate::strings::string_of(kept.as_slice()),
        model: input.model.clone(),
        secret_storage: SecretStorage::Absent,
        api_key_configured: false,
    }
}

pub open spec fn provider_kind_name(kind: ProviderKind) -> Seq<char> {
    match kind {
        ProviderKind::Loopback => "Loopback"@,
        ProviderKind::Https => "Https"@,
    }
}

/// The key-store scope of a configuration: provider kind and endpoint.
pub open spec fn spec_secret_scope(c: RuntimeConfiguration) -> Seq<char> {
    provider_kind_name(c.provider_kind) + ":"@ + c.endpoint@
}

/// Configurations of different provider kinds or endpoints keep their keys
/// under different scopes.
pub proof fn secret_scopes_do_not_collide(a: RuntimeConfiguration, b: RuntimeConfiguration)
    requires
        a.provider_kind != b.provider_kind || a.endpoint@ != b.endpoint@,
    ensures
        spec_secret_scope(a) != spec_secret_scope(b),
{
    reveal_strlit("Loopback");
    reveal_strlit("Https");
    reveal_strlit(":");
    let sa = spec_secret_scope(a);
    let sb = spec_secret_scope(b);
    if a.provider_kind != b.provider_kind {
        assert(sa[0] != sb[0]);
    } else {
        let n = (provider_kind_name(a.provider_kind) + ":"@).len() as int;
        assert(sa.skip(n) =~= a.endpoint@);
        assert(sb.skip(n) =~= b.endpoint@);
    }
}

pub fn secret_scope(configuration: &RuntimeConfiguration) -> (r: String)
    ensures r@ == spec_secret_scope(*configuration),
{
    let mut s = match configuration.provider_kind {
        ProviderKind::Loopback => "Loopback".to_owned(),
        ProviderKind::Https => "Https".to_owned(),
    };
    append_str(&mut s, ":");
    append_str(&mut s, configuration.endpoint.as_str());
    s
}

/// The SHA-256 digest of a byte string.
pub uninterp spec fn sha256_digest(bytes: Seq<u8>) -> Seq<u8>;

/// Calls `sha2::Sha256::digest`; its output is the 32-byte SHA-256 digest,
/// named `sha256_digest`.
#[verifier::external_body]
fn sha256(bytes: &[u8]) -> (r: Vec<u8>)
    ensures
        r@ == sha256_digest(bytes@),
        r@.len() == 32,
{
    sha2::Sha256::digest(bytes).to_vec()
}

/// Two lower-case hexadecimal digits per byte.
pub open spec fn hex_bytes(bytes: Seq<u8>) -> Seq<char>
    decreases bytes.len(),
{
    if bytes.len() == 0 {
        seq![]
    } else {
        hex_bytes(bytes.drop_last()) + seq![
            hex_digit((bytes.last() / 16) as u64),
            hex_digit((bytes.last() % 16) as u64),
        ]
    }
}

/// The key-store account name of a scope: `model-api-key-` and the
/// lower-case hex SHA-256 of the scope's UTF-8 bytes.
pub open spec fn spec_secret_username(scope: Seq<char>) -> Seq<char> {
    "model-api-key-"@ + hex_bytes(sha256_digest(vstd::utf8::encode_utf8(scope)))
}

fn hex_nibble(d: u8) -> (c: char)
    requires d < 16,
    ensures c == hex_digit(d as u64),
{
    if d < 10 { (d + 48) as char } else { (d + 87) as char }
}

/// Two lower-case hexadecimal digits per byte, in order.
pub fn hex_text(bytes: &[u8]) -> (r: String)
    ensures
        r@ == hex_bytes(bytes@),
{
    let mut s = String::new();
    let mut i: usize = 0;
    while i < bytes.len()
        invariant
            0 <= i <= bytes@.len(),
            s@ == hex_bytes(bytes@.take(i as int)),
        decreases bytes@.len() - i,
    {
        let b = bytes[i];
        assert(bytes@.take(i as int + 1).drop_last() == bytes@.take(i as int));
        push_char(&mut s, hex_nibble(b / 16));
        push_char(&mut s, hex_nibble(b % 16));
        assert(hex_bytes(bytes@.take(i as int + 1)) == hex_bytes(bytes@.take(i as int)) + seq![
            hex_digit((b / 16) as u64), hex_digit((b % 16) as u64)]);
        i += 1;
    }
    assert(bytes@.take(bytes@.len() as int) == bytes@);
    s
}

/// The lower-case hexadecimal SHA-256 digest of a byte string.
pub fn sha256_hex(bytes: &[u8]) -> (r: String)
    ensures
        r@ == hex_bytes(sha256_digest(bytes@)),
{
    let digest = sha256(bytes);
    hex_text(digest.as_slice())
}

pub fn secret_username(scope: &str) -> (r: String)
    ensures r@ == spec_secret_username(scope@),
{
    let mut s = "model-api-key-".to_owned();
    let h = sha256_hex(scope.as_bytes());
    append_str(&mut s, h.as_str());
    s
}


/// Every non-overlapping occurrence of `pat`, found left to right, replaced by `rep`.
pub open spec fn replace_all(s: Seq<char>, pat: Seq<char>, rep: Seq<char>) -> Seq<char>
    decreases s.len(),
{
    if s.len() == 0 {
        s
    } else if 0 < pat.len() <= s.len() && s.take(pat.len() as int) == pat {
        rep + replace_all(s.skip(pat.len() as int), pat, rep)
    } else {
        seq![s[0]] + replace_all(s.drop_first(), pat, rep)
    }
}

/// A message with a stored key blanked out; unchanged when no key is stored.
pub open spec fn spec_redact(input: Seq<char>, key: Option<Seq<char>>) -> Seq<char> {
    match key {
        Some(k) => if k.len() > 0 { replace_all(input, k, "[redacted]"@) } else { input },
        None => input,
    }
}

fn matches_at(s: &Vec<char>, i: usize, pat: &Vec<char>) -> (r: bool)
    requires
        i <= s@.len(),
    ensures
        r == (pat@.len() <= s@.len() - i && s@.skip(i as int).take(pat@.len() as int) == pat@),
{
    if pat.len() > s.len() - i {
        return false;
    }
    let n = s.len();
    let mut k: usize = 0;
    while k < pat.len()
        invariant
            0 <= k <= pat@.len() <= s@.len() - i,
            n == s@.len(),
            i + pat@.len() <= n,
            forall|j: int| 0 <= j < k ==> s@[i + j] == pat@[j],
        decreases pat@.len() - k,
    {
        if s[i + k] != pat[k] {
            assert(s@.skip(i as int).take(pat@.len() as int)[k as int] == s@[i + k]);
            return false;
        }
        k += 1;
    }
    assert(s@.skip(i as int).take(pat@.len() as int) =~= pat@);
    true
}

/// The keys a runtime keeps only for this session, and where each scope's key
/// was stored. Keys go to the system keyring when it accepts them and stay in
/// memory otherwise.
pub struct SecretVault {
    memory: TextMap<String>,
    storage: TextMap<SecretStorage>,
}

impl SecretVault {
    /// Keys held in memory, by scope.
    pub closed spec fn memory(&self) -> Map<Seq<char>, String> {
        self.memory.map()
    }

    /// Where each scope's key was stored.
    pub closed spec fn storage(&self) -> Map<Seq<char>, SecretStorage> {
        self.storage.map()
    }

    pub closed spec fn wf(&self) -> bool {
        self.memory.wf() && self.storage.wf()
    }

    pub fn new() -> (r: Self)
        ensures
            r.wf(),
            r.memory() == Map::<Seq<char>, String>::empty(),
            r.storage() == Map::<Seq<char>, SecretStorage>::empty(),
    {
        SecretVault { memory: TextMap::new(), storage: TextMap::new() }
    }

    /// Records where a scope's key went: into the keyring when it accepted
    /// the key (any copy in memory is dropped), into memory otherwise.
    pub fn record_set(&mut self, scope: &str, key: String, saved_in_keyring: bool) -> (r: SecretStorage)
        requires
            old(self).wf(),
        ensures
            final(self).wf(),
            saved_in_keyring ==> r == SecretStorage::Keyring && final(self).storage() == old(self).storage().insert(
                scope@,
                SecretStorage::Keyring,
            ) && final(self).memory() == old(self).memory().remove(scope@),
            !saved_in_keyring ==> r == SecretStorage::SessionMemory && final(self).storage() == old(self).storage().insert(
                scope@,
                SecretStorage::SessionMemory,
            ) && final(self).memory() == old(self).memory().insert(scope@, key),
    {
        if saved_in_keyring {
            self.storage.insert(scope.to_owned(), SecretStorage::Keyring);
            self.memory.remove(scope);
            SecretStorage::Keyring
        } else {
            self.memory.insert(scope.to_owned(), key);
            self.storage.insert(scope.to_owned(), SecretStorage::SessionMemory);
            SecretStorage::SessionMemory
        }
    }

    /// The key held in memory for a scope; the keyring is asked only when there is none.
    pub fn memory_key(&self, scope: &str) -> (r: Option<String>)
        requires
            self.wf(),
        ensures
            match r {
                Some(k) => self.memory().dom().contains(scope@) && k == self.memory()[scope@],
                None => !self.memory().dom().contains(scope@),
            },
    {
        match self.memory.get(scope) {
            Some(k) => Some(k.clone()),
            None => None,
        }
    }

    /// Where a scope's key is stored, `Absent` when none was stored.
    pub fn status(&self, scope: &str) -> (r: SecretStorage)
        requires
            self.wf(),
        ensures
            r == (if self.storage().dom().contains(scope@) { self.storage()[scope@] } else { SecretStorage::Absent }),
    {
        match self.storage.get(scope) {
            Some(s) => *s,
            None => SecretStorage::Absent,
        }
    }
}

/// Where a scope's key is stored according to a vault's records.
pub open spec fn stored_status(storage: Map<Seq<char>, SecretStorage>, scope: Seq<char>) -> SecretStorage {
    if storage.dom().contains(scope) { storage[scope] } else { SecretStorage::Absent }
}

/// Configures the runtime from an input. A refused input changes nothing.
/// An accepted one gives a configuration with its endpoint ending in exactly
/// one slash; a key given with it (one that is not blank) is stored under the
/// configuration's scope (`keyring_saved`: the system keyring accepted it),
/// else a key already held for the scope, in memory or in the keyring
/// (`keyring_holds`), is noted with where it is stored.
pub fn configure(
    vault: &mut SecretVault,
    input: &RuntimeConfigurationInput,
    keyring_saved: bool,
    keyring_holds: bool,
) -> (r: Result<RuntimeConfiguration, RuntimeError>)
    requires
        old(vault).wf(),
    ensures
        final(vault).wf(),
        match configuration_problem(input.provider_kind, input.endpoint@, input.model@) {
            Some(m) => r matches Err(RuntimeError::InvalidConfiguration(e)) && e@ == m && *final(vault) == *old(vault),
            None => r matches Ok(c) && c.configured && c.provider_kind == input.provider_kind
                && c.endpoint@ == strip_trailing_slashes(input.endpoint@).push('/') && c.model@ == input.model@
                && match input.api_key {
                    Some(k) if trim(k@).len() > 0 => {
                        let s = if keyring_saved { SecretStorage::Keyring } else { SecretStorage::SessionMemory };
                        c.secret_storage == s && c.api_key_configured
                            && final(vault).storage() == old(vault).storage().insert(spec_secret_scope(c), s)
                            && final(vault).memory() == (if keyring_saved {
                                old(vault).memory().remove(spec_secret_scope(c))
                            } else {
                                old(vault).memory().insert(spec_secret_scope(c), k)
                            })
                    },
                    _ => *final(vault) == *old(vault) && if old(vault).memory().dom().contains(spec_secret_scope(c)) || keyring_holds {
                        c.secret_storage == stored_status(old(vault).storage(), spec_secret_scope(c)) && c.api_key_configured
                    } else {
                        c.secret_storage == SecretStorage::Absent && !c.api_key_configured
                    },
                },
        },
{
    validate_configuration(input)?;
    let configuration = configuration_from_input(input);
    let scope = secret_scope(&configuration);
    let saved = if key_given(&input.api_key) {
        let key = match &input.api_key {
            Some(k) => k.clone(),
            None => String::new(),
        };
        Some(vault.record_set(&scope, key, keyring_saved))
    } else {
        None
    };
    let held = if saved.is_none() && (vault.memory_key(&scope).is_some() || keyring_holds) {
        Some(vault.status(&scope))
    } else {
        None
    };
    Ok(with_key_status(configuration, saved, held))
}

/// A key kept in memory is found again by the same scope until another key
/// is stored for it.
pub proof fn remembered_keys_are_found(memory: Map<Seq<char>, String>, scope: Seq<char>, key: String)
    ensures
        memory.insert(scope, key).dom().contains(scope),
        memory.insert(scope, key)[scope] == key,
{
}

/// `pat` occurs in `t` at position `i`.
pub open spec fn occurs_at(t: Seq<char>, pat: Seq<char>, i: int) -> bool {
    0 <= i && i + pat.len() <= t.len() && t.subrange(i, i + pat.len()) == pat
}

/// No character of `pat` is one of `rep`'s.
pub open spec fn disjoint_chars(pat: Seq<char>, rep: Seq<char>) -> bool {
    forall|j: int| 0 <= j < pat.len() ==> !rep.contains(#[trigger] pat[j])
}

/// A prefix of the replaced text that holds no character of the replacement
/// was copied unchanged from the start of the text.
proof fn lemma_clean_prefix_is_copied(t: Seq<char>, pat: Seq<char>, rep: Seq<char>, m: int)
    requires
        rep.len() > 0,
        0 <= m <= replace_all(t, pat, rep).len(),
        forall|j: int| 0 <= j < m ==> !rep.contains(#[trigger] replace_all(t, pat, rep)[j]),
    ensures
        m <= t.len(),
        replace_all(t, pat, rep).take(m) == t.take(m),
    decreases t.len(),
{
    let out = replace_all(t, pat, rep);
    if m == 0 {
        assert(out.take(0) =~= t.take(0));
    } else if 0 < pat.len() <= t.len() && t.take(pat.len() as int) == pat {
        assert(out[0] == rep[0]);
        assert(rep.contains(out[0]));
    } else {
        let rest = replace_all(t.drop_first(), pat, rep);
        assert(out == seq![t[0]] + rest);
        assert forall|j: int| 0 <= j < m - 1 implies !rep.contains(#[trigger] rest[j]) by {
            assert(rest[j] == out[j + 1]);
        }
        lemma_clean_prefix_is_copied(t.drop_first(), pat, rep, m - 1);
        assert forall|j: int| 0 <= j < m implies out.take(m)[j] == t.take(m)[j] by {
            if j > 0 {
                assert(out[j] == rest[j - 1]);
                assert(rest.take(m - 1)[j - 1] == t.drop_first().take(m - 1)[j - 1]);
            }
        }
        assert(out.take(m) =~= t.take(m));
    }
}

/// Replacing every occurrence of a pattern that shares no character with
/// its replacement leaves no occurrence of the pattern.
proof fn lemma_replaced_pattern_is_gone(s: Seq<char>, pat: Seq<char>, rep: Seq<char>, i: int)
    requires
        pat.len() > 0,
        rep.len() > 0,
        disjoint_chars(pat, rep),
    ensures
        !occurs_at(replace_all(s, pat, rep), pat, i),
    decreases s.len(),
{
    let out = replace_all(s, pat, rep);
    if s.len() == 0 || !occurs_at(out, pat, i) {
        return;
    }
    let n = pat.len() as int;
    assert(out.subrange(i, i + n)[0] == pat[0]);
    if n <= s.len() && s.take(n) == pat {
        let rest = replace_all(s.skip(n), pat, rep);
        assert(out == rep + rest);
        if i < rep.len() {
            assert(out[i] == rep[i]);
            assert(rep.contains(pat[0]));
        } else {
            lemma_replaced_pattern_is_gone(s.skip(n), pat, rep, i - rep.len());
            assert(rest.subrange(i - rep.len(), i - rep.len() + n) =~= out.subrange(i, i + n));
        }
    } else {
        let rest = replace_all(s.drop_first(), pat, rep);
        assert(out == seq![s[0]] + rest);
        if i >= 1 {
            lemma_replaced_pattern_is_gone(s.drop_first(), pat, rep, i - 1);
            assert(rest.subrange(i - 1, i - 1 + n) =~= out.subrange(i, i + n));
        } else {
            assert forall|j: int| 0 <= j < n - 1 implies !rep.contains(#[trigger] rest[j]) by {
                assert(rest[j] == out[j + 1]);
                assert(out.subrange(0, n)[j + 1] == pat[j + 1]);
            }
            lemma_clean_prefix_is_copied(s.drop_first(), pat, rep, n - 1);
            assert(s.take(n) =~= out.subrange(0, n)) by {
                assert forall|j: int| 0 <= j < n implies s.take(n)[j] == out.subrange(0, n)[j] by {
                    if j > 0 {
                        assert(rest.take(n - 1)[j - 1] == s.drop_first().take(n - 1)[j - 1]);
                    }
                }
            }
        }
    }
}

/// A redacted message no longer holds the stored key, when the key is not
/// empty and shares no character with `[redacted]`.
pub proof fn redaction_hides_the_key(input: Seq<char>, key: Seq<char>, i: int)
    requires
        key.len() > 0,
        disjoint_chars(key, "[redacted]"@),
    ensures
        !occurs_at(spec_redact(input, Some(key)), key, i),
{
    reveal_strlit("[redacted]");
    lemma_replaced_pattern_is_gone(input, key, "[redacted]"@, i);
}

/// Replaces a stored key in a provider error message by `[redacted]`.
pub fn redact(input: &str, key: Option<&str>) -> (r: String)
    ensures
        r@ == spec_redact(input@, match key { Some(k) => Some(k@), None => None }),
{
    let k = match key {
        Some(k) => k,
        None => return input.to_owned(),
    };
    let pat = chars_of(k);
    if pat.len() == 0 {
        return input.to_owned();
    }
    let s = chars_of(input);
    let rep = chars_of("[redacted]");
    let mut out: Vec<char> = Vec::new();
    let mut i: usize = 0;
    assert(s@.skip(0) == s@);
    while i < s.len()
        invariant
            0 <= i <= s@.len(),
            pat@.len() > 0,
            rep@ == "[redacted]"@,
            out@ + replace_all(s@.skip(i as int), pat@, rep@) == replace_all(s@, pat@, rep@),
        decreases s@.len() - i,
    {
        let ghost rest = s@.skip(i as int);
        if matches_at(&s, i, &pat) {
            assert(rest.skip(pat@.len() as int) == s@.skip(i + pat@.len()));
            let ghost before = out@;
            let mut j: usize = 0;
            while j < rep.len()
                invariant
                    0 <= j <= rep@.len(),
                    out@ == before + rep@.take(j as int),
                decreases rep@.len() - j,
            {
                out.push(rep[j]);
                assert(rep@.take(j as int + 1) == rep@.take(j as int).push(rep@[j as int]));
                j += 1;
            }
            assert(rep@.take(rep@.len() as int) == rep@);
            assert(before + (rep@ + replace_all(rest.skip(pat@.len() as int), pat@, rep@))
                == before + rep@ + replace_all(rest.skip(pat@.len() as int), pat@, rep@));
            i += pat.len();
        } else {
            assert(rest.drop_first() == s@.skip(i as int + 1));
            assert(out@ + (seq![rest[0]] + replace_all(rest.drop_first(), pat@, rep@)) == out@.push(
                s@[i as int],
            ) + replace_all(rest.drop_first(), pat@, rep@));
            out.push(s[i]);
            i += 1;
        }
    }
    assert(s@.skip(i as int).len() == 0);
    assert(out@ + Seq::<char>::empty() == out@);
    crate::strings::string_of(out.as_slice())
}

/// Whether a run has used up its budget of model turns, tool steps or output bytes.
pub open spec fn spec_budget_exhausted(model_turns: u32, tool_steps: u32, output_bytes: usize) -> bool {
    model_turns >= 16 || tool_steps >= 12 || output_bytes >= 98304
}

pub fn budget_exhausted(model_turns: u32, tool_steps: u32, output_bytes: usize) -> (r: bool)
    ensures r == spec_budget_exhausted(model_turns, tool_steps, output_bytes),
{
    model_turns >= MAX_MODEL_TURNS || tool_steps >= MAX_TOOL_STEPS || output_bytes >= MAX_OUTPUT_BYTES
}

/// A configuration lacks what a run needs: it is incomplete, or a remote
/// provider has no key.
pub open spec fn incomplete_configuration(c: RuntimeConfiguration) -> bool {
    !c.configured || c.endpoint@.len() == 0 || c.model@.len() == 0
        || (c.provider_kind == ProviderKind::Https && !c.api_key_configured)
}

/// The checks before a run starts: a blank prompt is refused first, then an
/// incomplete configuration.
pub fn check_run_start(prompt: &str, configuration: &RuntimeConfiguration) -> (r: Result<(), RuntimeError>)
    ensures
        trim(prompt@).len() == 0 ==> (r matches Err(RuntimeError::InvalidConfiguration(m))
            && m@ == "prompt must not be empty"@),
        trim(prompt@).len() > 0 && incomplete_configuration(*configuration) ==> r
            == Err::<(), RuntimeError>(RuntimeError::NotConfigured),
        trim(prompt@).len() > 0 && !incomplete_configuration(*configuration) ==> r is Ok,
{
    let p = chars_of(prompt);
    if is_blank(&p) {
        return Err(RuntimeError::InvalidConfiguration("prompt must not be empty".to_owned()));
    }
    if !configuration.configured || configuration.endpoint.as_str().is_empty() || configuration.model.as_str().is_empty() {
        return Err(RuntimeError::NotConfigured);
    }
    if configuration.provider_kind == ProviderKind::Https && !configuration.api_key_configured {
        return Err(RuntimeError::NotConfigured);
    }
    Ok(())
}

/// The number of UTF-16 code units of a text.
pub open spec fn utf16_len(s: Seq<char>) -> nat
    decreases s.len(),
{
    if s.len() == 0 {
        0
    } else {
        utf16_len(s.drop_last()) + if (s.last() as u32) >= 0x10000 { 2nat } else { 1nat }
    }
}

pub open spec fn opt_view(o: Option<String>) -> Option<Seq<char>> {
    match o {
        Some(s) => Some(s@),
        None => None,
    }
}

/// The send-time context is stale when it or the host's current context names
/// another project, or their revision or binding differ.
pub open spec fn context_is_stale(project_id: Seq<char>, sent: ContextSnapshot, current: ContextSnapshot) -> bool {
    ||| opt_view(sent.project_id) != Some(project_id)
    ||| opt_view(sent.revision_id) != opt_view(current.revision_id)
    ||| opt_view(sent.binding_id) != opt_view(current.binding_id)
    ||| opt_view(current.project_id) != Some(project_id)
}

/// The selected range is inverted or shorter than the selected text.
pub open spec fn range_is_invalid(sent: ContextSnapshot) -> bool {
    match sent.text_range {
        Some(r) => r.start_utf16 > r.end_utf16 || utf16_len(sent.selected_text@) > r.end_utf16 - r.start_utf16,
        None => false,
    }
}

fn opt_eq(a: &Option<String>, b: &Option<String>) -> (r: bool)
    ensures r == (opt_view(*a) == opt_view(*b)),
{
    match (a, b) {
        (Some(x), Some(y)) => str_eq(x.as_str(), y.as_str()),
        (None, None) => true,
        _ => false,
    }
}

fn opt_is(a: &Option<String>, b: &str) -> (r: bool)
    ensures r == (opt_view(*a) == Some(b@)),
{
    match a {
        Some(x) => str_eq(x.as_str(), b),
        None => false,
    }
}

fn utf16_count(s: &str) -> (r: u128)
    ensures r == utf16_len(s@),
{
    let cs = chars_of(s);
    let mut n: u128 = 0;
    let mut i: usize = 0;
    while i < cs.len()
        invariant
            0 <= i <= cs@.len(),
            cs@ == s@,
            n == utf16_len(cs@.take(i as int)),
            n <= 2 * i,
        decreases cs@.len() - i,
    {
        assert(cs@.take(i as int + 1).drop_last() == cs@.take(i as int));
        if (cs[i] as u32) >= 0x10000 {
            n += 2;
        } else {
            n += 1;
        }
        i += 1;
    }
    assert(cs@.take(cs@.len() as int) == cs@);
    n
}

/// The binding a run is started for: the one the send-time context names.
/// A context without a binding is refused before anything else of it is checked.
pub fn send_binding(sent: &ContextSnapshot) -> (r: Result<String, RuntimeError>)
    ensures
        match sent.binding_id {
            Some(b) => r matches Ok(x) && x@ == b@,
            None => r matches Err(RuntimeError::Tool(m)) && m@ == "send-time context is missing binding_id"@,
        },
{
    match &sent.binding_id {
        Some(b) => Ok(b.clone()),
        None => Err(RuntimeError::Tool("send-time context is missing binding_id".to_owned())),
    }
}

/// Checks the context frozen at send time against the host's current
/// context: it must name a binding, then match the current bound project,
/// and its selected text must fit its range.
pub fn check_send_context(project_id: &str, sent: &ContextSnapshot, current: &ContextSnapshot) -> (r: Result<(), RuntimeError>)
    ensures
        sent.binding_id is None ==> (r matches Err(RuntimeError::Tool(m))
            && m@ == "send-time context is missing binding_id"@),
        sent.binding_id is Some && context_is_stale(project_id@, *sent, *current) ==> (r matches Err(RuntimeError::Tool(m))
            && m@ == "send-time context is stale or does not match the current bound local project"@),
        sent.binding_id is Some && !context_is_stale(project_id@, *sent, *current) && range_is_invalid(*sent) ==> (r matches Err(RuntimeError::Tool(m))
            && m@ == "send-time selected text range is invalid"@),
        sent.binding_id is Some && !context_is_stale(project_id@, *sent, *current) && !range_is_invalid(*sent) ==> r is Ok,
{
    if sent.binding_id.is_none() {
        return Err(RuntimeError::Tool("send-time context is missing binding_id".to_owned()));
    }
    if !opt_is(&sent.project_id, project_id) || !opt_eq(&sent.revision_id, &current.revision_id)
        || !opt_eq(&sent.binding_id, &current.binding_id) || !opt_is(&current.project_id, project_id) {
        return Err(RuntimeError::Tool("send-time context is stale or does not match the current bound local project".to_owned()));
    }
    if let Some(range) = &sent.text_range {
        if range.start_utf16 > range.end_utf16 || utf16_count(sent.selected_text.as_str()) > (range.end_utf16 - range.start_utf16) as u128 {
            return Err(RuntimeError::Tool("send-time selected text range is invalid".to_owned()));
        }
    }
    Ok(())
}

} // verus!

//! The OpenAI-compatible chat wire as plain values: what a completion reply
//! is read as, what a conversation message is sent as, and the arguments a
//! tool call is dispatched with. JSON text is parsed with `serde_json`.
use vstd::prelude::*;
use crate::ids::{is_uuid_v7, spec_uuid_text};
use crate::agent_loop::isolated_operation_id;
use crate::runtime::{
    alias_of, host_tool_method, method_of, provider_tool_name, tool_alias_of_entry, tool_aliases,
    tool_catalog, tool_texts, RuntimeError, ToolSchema,
};
use crate::strings::str_eq;

verus! {

/// The kind of a JSON value.
#[derive(Clone, Copy, Debug, PartialEq, Eq, Structural)]
pub enum JsonKind {
    Null,
    Bool,
    Number,
    Text,
    Array,
    Object,
}

/// The kind of the JSON value a text holds, as `serde_json::from_str` reads
/// it, or the parser's message when it holds none.
pub uninterp spec fn json_shape(text: Seq<char>) -> Result<JsonKind, Seq<char>>;

/// Parses a text with `serde_json::from_str` into a `serde_json::Value` and
/// tells its variant, or renders the `serde_json::Error` with `to_string`.
/// The outcome is named `json_shape`.
#[verifier::external_body]
fn parse_json_shape(text: &str) -> (r: Result<JsonKind, String>)
    ensures
        match json_shape(text@) {
            Ok(k) => r == Ok::<JsonKind, String>(k),
            Err(m) => r matches Err(e) && e@ == m,
        },
{
    match serde_json::from_str::<serde_json::Value>(text) {
        Ok(serde_json::Value::Null) => Ok(JsonKind::Null),
        Ok(serde_json::Value::Bool(_)) => Ok(JsonKind::Bool),
        Ok(serde_json::Value::Number(_)) => Ok(JsonKind::Number),
        Ok(serde_json::Value::String(_)) => Ok(JsonKind::Text),
        Ok(serde_json::Value::Array(_)) => Ok(JsonKind::Array),
        Ok(serde_json::Value::Object(_)) => Ok(JsonKind::Object),
        Err(error) => Err(error.to_string()),
    }
}

/// A tool call as a reply carries it: its `id`, `function.name` and
/// `function.arguments`, each where it is a string.
#[derive(Clone, Debug, PartialEq, Eq)]
pub struct ToolCallWire {
    pub id: Option<String>,
    pub name: Option<String>,
    pub arguments: Option<String>,
}

/// The first choice's message of a chat completion reply: its `content`
/// where it is a string, and its `tool_calls` (none when the reply has no
/// choice or no such array).
#[derive(Clone, Debug, PartialEq, Eq)]
pub struct CompletionWire {
    pub content: Option<String>,
    pub tool_calls: Vec<ToolCallWire>,
}

/// A tool call under its host method name (in a reply) or under its
/// provider alias (on the wire), with its arguments as JSON text.
#[derive(Clone, Debug, PartialEq, Eq)]
pub struct ToolCall {
    pub id: String,
    pub name: String,
    pub arguments: String,
}

/// A tool call as plain text: id, name, arguments.
pub open spec fn call_model(c: ToolCall) -> (Seq<char>, Seq<char>, Seq<char>) {
    (c.id@, c.name@, c.arguments@)
}

pub open spec fn call_models(cs: Seq<ToolCall>) -> Seq<(Seq<char>, Seq<char>, Seq<char>)> {
    cs.map_values(|c: ToolCall| call_model(c))
}

pub open spec fn or_empty(o: Option<String>) -> Seq<char> {
    match o {
        Some(s) => s@,
        None => Seq::empty(),
    }
}

/// The arguments text of a wire call: as given, or `{}`.
pub open spec fn wire_arguments(w: ToolCallWire) -> Seq<char> {
    match w.arguments {
        Some(a) => a@,
        None => "{}"@,
    }
}

/// How a wire call is read: its alias must stand for a host method (else
/// `Err((true, message))`), and its arguments must be JSON (else
/// `Err((false, the parser's message))`).
pub open spec fn call_from_wire(w: ToolCallWire) -> Result<(Seq<char>, Seq<char>, Seq<char>), (bool, Seq<char>)> {
    match method_of(tool_aliases(), or_empty(w.name)) {
        None => Err((true, "provider returned an unknown function name"@)),
        Some(m) => match json_shape(wire_arguments(w)) {
            Err(e) => Err((false, e)),
            Ok(_) => Ok((or_empty(w.id), m, wire_arguments(w))),
        },
    }
}

/// The first `n` wire calls read in order; the first that cannot be read decides.
pub open spec fn calls_from_wire(ws: Seq<ToolCallWire>, n: int) -> Result<Seq<(Seq<char>, Seq<char>, Seq<char>)>, (bool, Seq<char>)>
    decreases n,
{
    if n <= 0 || n > ws.len() {
        Ok(Seq::empty())
    } else {
        match calls_from_wire(ws, n - 1) {
            Err(p) => Err(p),
            Ok(done) => match call_from_wire(ws[n - 1]) {
                Err(p) => Err(p),
                Ok(c) => Ok(done.push(c)),
            },
        }
    }
}

/// Reads a completion reply: its content (empty when absent) and one tool
/// call per wire call, in order, each under the host method its alias
/// stands for, with its arguments (`{}` when absent). The first call whose
/// alias is unknown is refused as a configuration error, and the first whose
/// arguments are not JSON as a serialization error.
pub fn completion_from_wire(w: &CompletionWire) -> (r: Result<(String, Vec<ToolCall>), RuntimeError>)
    ensures
        match calls_from_wire(w.tool_calls@, w.tool_calls@.len() as int) {
            Ok(cs) => r matches Ok((content, calls)) && content@ == or_empty(w.content) && call_models(calls@) == cs,
            Err((true, m)) => r matches Err(RuntimeError::InvalidConfiguration(x)) && x@ == m,
            Err((false, m)) => r matches Err(RuntimeError::Serialization(x)) && x@ == m,
        },
{
    let mut calls: Vec<ToolCall> = Vec::new();
    let mut i: usize = 0;
    assert(call_models(calls@) =~= Seq::<(Seq<char>, Seq<char>, Seq<char>)>::empty());
    while i < w.tool_calls.len()
        invariant
            0 <= i <= w.tool_calls@.len(),
            calls@.len() == i,
            calls_from_wire(w.tool_calls@, i as int) == Ok::<Seq<(Seq<char>, Seq<char>, Seq<char>)>, (bool, Seq<char>)>(call_models(calls@)),
        decreases w.tool_calls@.len() - i,
    {
        let t = &w.tool_calls[i];
        let name = match &t.name {
            Some(n) => n.as_str(),
            None => "",
        };
        proof {
            reveal_strlit("");
        }
        assert(name@ == or_empty(w.tool_calls@[i as int].name));
        let ghost prefix = calls_from_wire(w.tool_calls@, i as int);
        let method = match host_tool_method(name) {
            Ok(m) => m,
            Err(e) => {
                proof {
                    assert(call_from_wire(w.tool_calls@[i as int]) is Err);
                    assert(calls_from_wire(w.tool_calls@, i as int + 1) is Err);
                    lemma_calls_fail_after(w.tool_calls@, i as int + 1);
                }
                return Err(RuntimeError::InvalidConfiguration("provider returned an unknown function name".to_owned()));
            },
        };
        let arguments = match &t.arguments {
            Some(a) => a.clone(),
            None => "{}".to_owned(),
        };
        match parse_json_shape(arguments.as_str()) {
            Ok(_) => {},
            Err(e) => {
                proof {
                    lemma_calls_fail_after(w.tool_calls@, i as int + 1);
                }
                return Err(RuntimeError::Serialization(e));
            },
        }
        let id = match &t.id {
            Some(x) => x.clone(),
            None => String::new(),
        };
        let ghost before = calls@;
        calls.push(ToolCall { id, name: method.to_owned(), arguments });
        assert(call_models(calls@) =~= call_models(before).push(call_model(calls@[i as int])));
        i += 1;
    }
    let content = match &w.content {
        Some(c) => c.clone(),
        None => String::new(),
    };
    Ok((content, calls))
}

/// Once a prefix of the calls cannot be read, neither can all of them.
proof fn lemma_calls_fail_after(ws: Seq<ToolCallWire>, n: int)
    requires
        0 <= n <= ws.len(),
        calls_from_wire(ws, n) is Err,
    ensures
        calls_from_wire(ws, ws.len() as int) == calls_from_wire(ws, n),
    decreases ws.len() - n,
{
    if n < ws.len() {
        lemma_calls_fail_after(ws, n + 1);
    }
}

/// A message of the conversation as the runtime keeps it.
#[derive(Clone, Debug, PartialEq, Eq)]
pub struct ProviderMessage {
    pub role: String,
    pub content: String,
    pub tool_call_id: Option<String>,
    pub tool_calls: Option<Vec<ToolCall>>,
}

/// A message as it is sent: the same fields, its tool calls under their
/// provider aliases.
#[derive(Clone, Debug, PartialEq, Eq)]
pub struct MessageWire {
    pub role: String,
    pub content: String,
    pub tool_call_id: Option<String>,
    pub tool_calls: Option<Vec<ToolCall>>,
}

/// The first `n` calls under their provider aliases, their ids and
/// arguments as they are; the first call whose method has no alias is
/// refused with the configuration message that names it.
pub open spec fn aliased_calls(cs: Seq<ToolCall>, n: int) -> Result<Seq<(Seq<char>, Seq<char>, Seq<char>)>, Seq<char>>
    decreases n,
{
    if n <= 0 || n > cs.len() {
        Ok(Seq::empty())
    } else {
        match aliased_calls(cs, n - 1) {
            Err(m) => Err(m),
            Ok(done) => match alias_of(tool_aliases(), cs[n - 1].name@) {
                None => Err("no OpenAI-compatible function alias for host method "@ + cs[n - 1].name@),
                Some(a) => Ok(done.push((cs[n - 1].id@, a, cs[n - 1].arguments@))),
            },
        }
    }
}

proof fn lemma_aliased_fail_after(cs: Seq<ToolCall>, n: int)
    requires
        0 <= n <= cs.len(),
        aliased_calls(cs, n) is Err,
    ensures
        aliased_calls(cs, cs.len() as int) == aliased_calls(cs, n),
    decreases cs.len() - n,
{
    if n < cs.len() {
        lemma_aliased_fail_after(cs, n + 1);
    }
}

fn clone_opt(o: &Option<String>) -> (r: Option<String>)
    ensures
        r == *o,
{
    match o {
        Some(s) => Some(s.clone()),
        None => None,
    }
}

/// A message as it is sent: role, content and tool call id as they are;
/// tool calls, where it has them, under their provider aliases, with ids and
/// arguments unchanged. A call to a method without an alias is refused.
pub fn message_wire(m: &ProviderMessage) -> (r: Result<MessageWire, RuntimeError>)
    ensures
        match m.tool_calls {
            None => r matches Ok(x) && x.role == m.role && x.content == m.content && x.tool_call_id == m.tool_call_id
                && x.tool_calls is None,
            Some(cs) => match aliased_calls(cs@, cs@.len() as int) {
                Ok(ws) => r matches Ok(x) && x.role == m.role && x.content == m.content && x.tool_call_id == m.tool_call_id
                    && (x.tool_calls matches Some(v) && call_models(v@) == ws),
                Err(e) => r matches Err(RuntimeError::InvalidConfiguration(x)) && x@ == e,
            },
        },
{
    let tool_calls = match &m.tool_calls {
        None => None,
        Some(cs) => {
            let mut out: Vec<ToolCall> = Vec::new();
            let mut i: usize = 0;
            assert(call_models(out@) =~= Seq::<(Seq<char>, Seq<char>, Seq<char>)>::empty());
            while i < cs.len()
                invariant
                    0 <= i <= cs@.len(),
                    m.tool_calls == Some(*cs),
                    out@.len() == i,
                    aliased_calls(cs@, i as int) == Ok::<Seq<(Seq<char>, Seq<char>, Seq<char>)>, Seq<char>>(call_models(out@)),
                decreases cs@.len() - i,
            {
                let alias = match provider_tool_name(cs[i].name.as_str()) {
                    Ok(a) => a,
                    Err(e) => {
                        proof {
                            assert(m.tool_calls == Some(*cs));
                            assert(aliased_calls(cs@, i as int + 1) is Err);
                            lemma_aliased_fail_after(cs@, i as int + 1);
                        }
                        return Err(e);
                    },
                };
                let ghost before = out@;
                out.push(ToolCall { id: cs[i].id.clone(), name: alias.to_owned(), arguments: cs[i].arguments.clone() });
                assert(call_models(out@) =~= call_models(before).push(call_model(out@[i as int])));
                i += 1;
            }
            Some(out)
        },
    };
    Ok(MessageWire { role: m.role.clone(), content: m.content.clone(), tool_call_id: clone_opt(&m.tool_call_id), tool_calls })
}

/// The tools offered to the provider, in catalog order, each under its
/// provider alias with its description and parameter schema.
pub fn provider_tools() -> (r: Vec<ToolSchema>)
    ensures
        r@.len() == tool_aliases().len(),
        forall|i: int| 0 <= i < r@.len() ==> (#[trigger] r@[i]).name@ == tool_aliases()[i].1
            && r@[i].description@ == tool_texts()[i].0 && r@[i].parameters@ == tool_texts()[i].1,
{
    let catalog = tool_catalog();
    let mut out: Vec<ToolSchema> = Vec::new();
    let mut i: usize = 0;
    while i < catalog.len()
        invariant
            0 <= i <= catalog@.len(),
            catalog@.len() == tool_aliases().len(),
            forall|k: int| 0 <= k < catalog@.len() ==> (#[trigger] catalog@[k]).name@ == tool_aliases()[k].0
                && catalog@[k].description@ == tool_texts()[k].0 && catalog@[k].parameters@ == tool_texts()[k].1,
            out@.len() == i,
            forall|k: int| 0 <= k < i ==> (#[trigger] out@[k]).name@ == tool_aliases()[k].1
                && out@[k].description@ == tool_texts()[k].0 && out@[k].parameters@ == tool_texts()[k].1,
        decreases catalog@.len() - i,
    {
        proof {
            tool_alias_of_entry(i as int);
        }
        let alias = match provider_tool_name(catalog[i].name) {
            Ok(a) => a,
            Err(_) => {
                assert(false);
                return out;
            },
        };
        out.push(ToolSchema { name: alias, description: catalog[i].description, parameters: catalog[i].parameters });
        i += 1;
    }
    out
}

/// The members of the JSON object a text holds, each as its key and its
/// value's compact JSON text, in the object's order; `None` when the text
/// holds no object.
pub uninterp spec fn json_members(text: Seq<char>) -> Option<Seq<(Seq<char>, Seq<char>)>>;

/// No two members share a key.
pub open spec fn distinct_keys(ms: Seq<(Seq<char>, Seq<char>)>) -> bool {
    forall|i: int, j: int| 0 <= i < j < ms.len() ==> ms[i].0 != ms[j].0
}

/// Parses a text with `serde_json::from_str` into a `serde_json::Value` and,
/// for an object, lists its members: each key with its value rendered by
/// `to_string`. Any other value, and a parse error, gives `None`. The outcome
/// is named `json_members`; a `serde_json::Map` holds each key once.
#[verifier::external_body]
fn parse_json_members(text: &str) -> (r: Option<Vec<(String, String)>>)
    ensures
        r.deep_view() == json_members(text@),
        r matches Some(ms) ==> distinct_keys(ms.deep_view()),
{
    match serde_json::from_str::<serde_json::Value>(text) {
        Ok(serde_json::Value::Object(map)) => Some(map.into_iter().map(|(k, v)| (k, v.to_string())).collect()),
        Ok(_) => None,
        Err(_) => None,
    }
}

/// The compact JSON text of a string value.
pub uninterp spec fn json_string_of(text: Seq<char>) -> Seq<char>;

/// Renders `serde_json::Value::String` of a text with `to_string`; the
/// outcome is named `json_string_of`.
#[verifier::external_body]
fn json_string_text(text: &str) -> (r: String)
    ensures
        r@ == json_string_of(text@),
{
    serde_json::Value::String(text.to_owned()).to_string()
}

/// The members whose key is not `key`, in order.
pub open spec fn without_key(ms: Seq<(Seq<char>, Seq<char>)>, key: Seq<char>) -> Seq<(Seq<char>, Seq<char>)>
    decreases ms.len(),
{
    if ms.len() == 0 {
        ms
    } else if ms.last().0 == key {
        without_key(ms.drop_last(), key)
    } else {
        without_key(ms.drop_last(), key).push(ms.last())
    }
}

/// The parameters that tool arguments give: an object's members, else none.
pub open spec fn object_params(args: Seq<char>) -> Seq<(Seq<char>, Seq<char>)> {
    match json_members(args) {
        Some(ms) => ms,
        None => Seq::empty(),
    }
}

/// Parameters with the operation identifier set: a member of that name is
/// dropped and one holding `op` as a JSON string takes its place.
pub open spec fn with_operation_id(ms: Seq<(Seq<char>, Seq<char>)>, op: Seq<char>) -> Seq<(Seq<char>, Seq<char>)> {
    without_key(ms, "operation_id"@).push(("operation_id"@, json_string_of(op)))
}

/// The run-scoped operation identifier of a run and a fresh identifier.
pub open spec fn run_operation_id(run_id: Seq<char>, v: u128) -> Seq<char> {
    "agent-runtime:"@ + run_id + ":"@ + spec_uuid_text(v)
}

proof fn lemma_without_key(ms: Seq<(Seq<char>, Seq<char>)>, key: Seq<char>)
    ensures
        forall|i: int| 0 <= i < without_key(ms, key).len() ==> without_key(ms, key)[i].0 != key
            && ms.contains(#[trigger] without_key(ms, key)[i]),
        distinct_keys(ms) ==> distinct_keys(without_key(ms, key)),
    decreases ms.len(),
{
    if ms.len() > 0 {
        let front = ms.drop_last();
        lemma_without_key(front, key);
        let w = without_key(front, key);
        assert forall|i: int| 0 <= i < w.len() implies ms.contains(#[trigger] w[i]) by {
            let j = choose|j: int| 0 <= j < front.len() && front[j] == w[i];
            assert(ms[j] == w[i]);
        }
        if ms.last().0 != key {
            let r = w.push(ms.last());
            assert forall|i: int| 0 <= i < r.len() implies r[i].0 != key && ms.contains(#[trigger] r[i]) by {
                if i == w.len() {
                    assert(ms[ms.len() - 1] == r[i]);
                } else {
                    assert(r[i] == w[i]);
                }
            }
            if distinct_keys(ms) {
                assert forall|i: int, j: int| 0 <= i < j < r.len() implies r[i].0 != r[j].0 by {
                    if j == w.len() {
                        assert(r[i] == w[i]);
                        assert(front.contains(w[i]));
                        let k = choose|k: int| 0 <= k < front.len() && front[k] == w[i];
                        assert(ms[k] == front[k]);
                    } else {
                        assert(r[i] == w[i] && r[j] == w[j]);
                    }
                }
            }
        }
    }
}

/// Setting the operation identifier leaves exactly one member of that name,
/// the last, holding the identifier; keys that were distinct stay distinct.
pub proof fn operation_id_is_set_once(ms: Seq<(Seq<char>, Seq<char>)>, op: Seq<char>)
    ensures
        with_operation_id(ms, op).last() == ("operation_id"@, json_string_of(op)),
        forall|i: int| 0 <= i < with_operation_id(ms, op).len() - 1
            ==> (#[trigger] with_operation_id(ms, op)[i]).0 != "operation_id"@ && ms.contains(with_operation_id(ms, op)[i]),
        distinct_keys(ms) ==> distinct_keys(with_operation_id(ms, op)),
{
    lemma_without_key(ms, "operation_id"@);
    let w = without_key(ms, "operation_id"@);
    let r = with_operation_id(ms, op);
    assert forall|i: int| 0 <= i < r.len() - 1 implies (#[trigger] r[i]).0 != "operation_id"@ && ms.contains(r[i]) by {
        assert(r[i] == w[i]);
    }
    if distinct_keys(ms) {
        assert forall|i: int, j: int| 0 <= i < j < r.len() implies r[i].0 != r[j].0 by {
            assert(r[i] == w[i]);
            if j < w.len() {
                assert(r[j] == w[j]);
            }
        }
    }
}

/// The members whose key is not `key`, in order.
fn members_without(ms: &Vec<(String, String)>, key: &str) -> (r: Vec<(String, String)>)
    ensures
        r.deep_view() == without_key(ms.deep_view(), key@),
{
    let mut out: Vec<(String, String)> = Vec::new();
    let mut i: usize = 0;
    while i < ms.len()
        invariant
            0 <= i <= ms.len(),
            out.deep_view() == without_key(ms.deep_view().take(i as int), key@),
        decreases ms.len() - i,
    {
        let ghost all = ms.deep_view();
        assert(all.take(i as int + 1).drop_last() =~= all.take(i as int));
        assert(all.take(i as int + 1).last() == all[i as int]);
        if !str_eq(ms[i].0.as_str(), key) {
            let ghost before = out.deep_view();
            let member = (ms[i].0.clone(), ms[i].1.clone());
            out.push(member);
            assert(out.deep_view() =~= before.push(all[i as int]));
        }
        i += 1;
    }
    assert(ms.deep_view().take(ms.len() as int) =~= ms.deep_view());
    out
}

/// The parameters a tool call is dispatched with: the members of its
/// arguments where they are a JSON object, else none. A pipeline execution
/// gets a run-scoped operation identifier (the run and a fresh version-7
/// identifier) in place of any the model chose.
pub fn isolated_tool_arguments(run_id: &str, call: &ToolCall) -> (r: Vec<(String, String)>)
    ensures
        call.name@ != "pipeline.execute"@ ==> r.deep_view() == object_params(call.arguments@),
        call.name@ == "pipeline.execute"@ ==> exists|v: u128|
            is_uuid_v7(v) && r.deep_view() == with_operation_id(object_params(call.arguments@), run_operation_id(run_id@, v)),
{
    let params = match parse_json_members(call.arguments.as_str()) {
        Some(ms) => ms,
        None => Vec::new(),
    };
    assert(params.deep_view() =~= object_params(call.arguments@));
    match isolated_operation_id(call.name.as_str(), run_id) {
        None => params,
        Some(op) => {
            let mut r = members_without(&params, "operation_id");
            let key = "operation_id".to_owned();
            let value = json_string_text(op.as_str());
            let ghost before = r.deep_view();
            r.push((key, value));
            proof {
                reveal_strlit("operation_id");
                let v = choose|v: u128| is_uuid_v7(v) && op@ == "agent-runtime:"@ + run_id@ + ":"@ + spec_uuid_text(v);
                assert(r.deep_view() =~= with_operation_id(object_params(call.arguments@), run_operation_id(run_id@, v)));
            }
            r
        },
    }
}

} // verus!

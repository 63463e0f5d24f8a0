//! The provider's chat wire, send-time checks, key status and path safety.

use jueming::agent_loop::{begin_turn, LoopBudget, TurnStart};
use jueming::application::safe_relative;
use jueming::host::{mutation_target, settle_mutation, Binding};
use jueming::ids::{ProjectId, RevisionId, SegmentId};
use jueming::provider::{
    completion_from_wire, isolated_tool_arguments, message_wire, provider_tools,
    CompletionWire, ProviderMessage, ToolCall, ToolCallWire,
};
use jueming::registry::BoundedMap;
use jueming::runtime::{
    check_send_context, key_given, send_binding, with_key_status, ProviderKind, RuntimeConfiguration,
    RuntimeError, SecretStorage,
};
use jueming::{AppError, ContextSnapshot};

fn wire(id: Option<&str>, name: Option<&str>, arguments: Option<&str>) -> ToolCallWire {
    ToolCallWire {
        id: id.map(str::to_owned),
        name: name.map(str::to_owned),
        arguments: arguments.map(str::to_owned),
    }
}

fn call(id: &str, name: &str, arguments: &str) -> ToolCall {
    ToolCall { id: id.into(), name: name.into(), arguments: arguments.into() }
}

#[test]
fn a_completion_reads_back_host_methods_and_default_arguments() {
    let reply = CompletionWire {
        content: None,
        tool_calls: vec![
            wire(Some("c1"), Some("jueming_segment_get"), Some(r#"{"segment_id":"x"}"#)),
            wire(None, Some("jueming_pipeline_execute"), None),
        ],
    };
    let (content, calls) = completion_from_wire(&reply).unwrap();
    assert_eq!(content, "");
    assert_eq!(
        calls,
        vec![call("c1", "segment.get", r#"{"segment_id":"x"}"#), call("", "pipeline.execute", "{}")]
    );
    let unknown = CompletionWire {
        content: Some("hi".into()),
        tool_calls: vec![wire(Some("a"), Some("jueming_ui_navigate"), Some("[1")), wire(None, Some("rm_rf"), None)],
    };
    // The first call's arguments are not JSON: that is reported first.
    assert!(matches!(completion_from_wire(&unknown), Err(RuntimeError::Serialization(_))));
    let unknown_first = CompletionWire {
        content: Some("hi".into()),
        tool_calls: vec![wire(None, Some("rm_rf"), Some("[1"))],
    };
    assert_eq!(
        completion_from_wire(&unknown_first).unwrap_err(),
        RuntimeError::InvalidConfiguration("provider returned an unknown function name".into())
    );
}

#[test]
fn messages_go_out_under_provider_aliases() {
    let plain = ProviderMessage { role: "user".into(), content: "hello".into(), tool_call_id: None, tool_calls: None };
    let sent = message_wire(&plain).unwrap();
    assert_eq!((sent.role.as_str(), sent.content.as_str()), ("user", "hello"));
    assert!(sent.tool_call_id.is_none() && sent.tool_calls.is_none());
    let assistant = ProviderMessage {
        role: "assistant".into(),
        content: String::new(),
        tool_call_id: Some("t".into()),
        tool_calls: Some(vec![call("c1", "proposal.list", "{}")]),
    };
    let sent = message_wire(&assistant).unwrap();
    assert_eq!(sent.tool_call_id.as_deref(), Some("t"));
    assert_eq!(sent.tool_calls.unwrap(), vec![call("c1", "jueming_proposal_list", "{}")]);
    let bad = ProviderMessage { tool_calls: Some(vec![call("c", "app.describe", "{}")]), ..assistant };
    assert_eq!(
        message_wire(&bad).unwrap_err(),
        RuntimeError::InvalidConfiguration("no OpenAI-compatible function alias for host method app.describe".into())
    );
    let tools = provider_tools();
    assert_eq!(tools.len(), 15);
    assert!(tools.iter().all(|t| t.name.starts_with("jueming_") && !t.name.contains('.')));
}

fn member<'a>(params: &'a [(String, String)], key: &str) -> Option<&'a str> {
    params.iter().find(|(k, _)| k == key).map(|(_, v)| v.as_str())
}

#[test]
fn pipeline_executions_get_a_run_scoped_operation_id() {
    let params = isolated_tool_arguments("run-1", &call("c", "pipeline.execute", r#"{"method_id":"m","operation_id":"mine"}"#));
    assert_eq!(params.len(), 2);
    assert_eq!(params.iter().filter(|(k, _)| k == "operation_id").count(), 1);
    let op: String = serde_json::from_str(member(&params, "operation_id").unwrap()).unwrap();
    assert!(op.starts_with("agent-runtime:run-1:"));
    assert_eq!(op.len(), "agent-runtime:run-1:".len() + 36);
    assert_eq!(member(&params, "method_id"), Some(r#""m""#));
    let replaced = isolated_tool_arguments("r", &call("c", "pipeline.execute", "[1,2]"));
    assert_eq!(replaced.len(), 1);
    assert_eq!(replaced[0].0, "operation_id");
    let empty = isolated_tool_arguments("r", &call("c", "pipeline.execute", " { } "));
    assert_eq!(empty.len(), 1);
    assert!(serde_json::from_str::<String>(&empty[0].1).unwrap().starts_with("agent-runtime:r:"));
    assert!(isolated_tool_arguments("r", &call("c", "segment.get", "[1]")).is_empty());
    assert_eq!(
        isolated_tool_arguments("r", &call("c", "segment.get", r#"{"segment_id":"s","limit":3,"deep":{"a":[1,null]}}"#)),
        vec![
            ("deep".to_owned(), r#"{"a":[1,null]}"#.to_owned()),
            ("limit".to_owned(), "3".to_owned()),
            ("segment_id".to_owned(), r#""s""#.to_owned()),
        ]
    );
}

#[test]
fn a_send_time_context_must_name_a_binding_first() {
    let sent = ContextSnapshot { project_id: Some("p".into()), ..ContextSnapshot::default() };
    let current = ContextSnapshot { project_id: Some("p".into()), ..ContextSnapshot::default() };
    assert_eq!(
        check_send_context("p", &sent, &current).unwrap_err(),
        RuntimeError::Tool("send-time context is missing binding_id".into())
    );
    assert_eq!(send_binding(&sent).unwrap_err(), RuntimeError::Tool("send-time context is missing binding_id".into()));
    let bound = ContextSnapshot { binding_id: Some("b".into()), ..sent };
    assert_eq!(send_binding(&bound).unwrap(), "b");
    let current = ContextSnapshot { binding_id: Some("b".into()), ..current };
    assert!(check_send_context("p", &bound, &current).is_ok());
}

#[test]
fn a_given_or_held_key_marks_the_configuration() {
    let base = RuntimeConfiguration {
        configured: true,
        provider_kind: ProviderKind::Https,
        endpoint: "https://example.test/v1/".into(),
        model: "m".into(),
        secret_storage: SecretStorage::Absent,
        api_key_configured: false,
    };
    assert!(key_given(&Some(" k ".into())));
    assert!(!key_given(&Some("  ".into())));
    assert!(!key_given(&None));
    let saved = with_key_status(base.clone(), Some(SecretStorage::Keyring), Some(SecretStorage::SessionMemory));
    assert!(saved.api_key_configured && saved.secret_storage == SecretStorage::Keyring);
    let held = with_key_status(base.clone(), None, Some(SecretStorage::SessionMemory));
    assert!(held.api_key_configured && held.secret_storage == SecretStorage::SessionMemory);
    assert_eq!(with_key_status(base.clone(), None, None), base);
    assert_eq!(
        RuntimeError::Serialization("eof".into()).describe(),
        "runtime serialization error: eof"
    );
    assert_eq!(RuntimeError::NotConfigured.describe(), "runtime is not configured");
}

#[test]
fn resource_paths_stay_inside_their_package() {
    assert_eq!(safe_relative("models/xlmr.bin").unwrap(), "models/xlmr.bin");
    assert!(safe_relative("").is_err());
    assert!(safe_relative("../escape").is_err());
    assert!(safe_relative("./here").is_err());
    assert_eq!(safe_relative("/etc/passwd").unwrap_err(), "unsafe resource path");
}

#[test]
fn mutations_need_a_project_and_failures_change_nothing() {
    let now = Binding { project_id: ProjectId::from_u128(1), revision_id: RevisionId::new(2) };
    assert_eq!(mutation_target(None).unwrap_err().code, "project_unavailable");
    assert_eq!(mutation_target(Some(now)).unwrap(), now);
    let mut bindings = BoundedMap::new(4);
    let mut context = Some(ContextSnapshot { selected_text: "x".into(), ..ContextSnapshot::default() });
    let failure = AppError::new("kernel", "no");
    assert_eq!(settle_mutation(&mut bindings, &mut context, now, Err(failure.clone())), Err(failure));
    assert_eq!(context.as_ref().unwrap().selected_text, "x");
    let moved = Binding { revision_id: RevisionId::new(3), ..now };
    assert_eq!(settle_mutation(&mut bindings, &mut context, now, Ok(moved)), Ok(true));
    assert_eq!(settle_mutation(&mut bindings, &mut context, moved, Ok(moved)), Ok(false));
}

#[test]
fn identifiers_read_and_write_their_text() {
    let id = SegmentId::from_u128(0x0123_4567_89ab_cdef_0011_2233_4455_6677);
    assert_eq!(id.text(), "01234567-89ab-cdef-0011-223344556677");
    assert_eq!(SegmentId::parse(&id.text()), Some(id));
    assert_eq!(SegmentId::parse("not-a-uuid"), None);
    assert_eq!(RevisionId::from(u64::MAX), RevisionId::new(u64::MAX));
    assert_eq!(RevisionId::default().value(), 0);
    let fresh = ProjectId::default();
    assert_eq!((fresh.as_u128() >> 76) & 0xf, 7);
}

#[test]
fn a_run_asks_the_model_at_most_sixteen_times() {
    let mut budget = LoopBudget::fresh();
    let mut asked = 0;
    for _ in 0..40 {
        match begin_turn(None, budget) {
            TurnStart::Ask(next) => {
                budget = next;
                asked += 1;
            }
            TurnStart::OverBudget => break,
            TurnStart::Cancel(_) => unreachable!(),
        }
    }
    assert_eq!(asked, 16);
}

//! The agent runtime's configuration rules.

use jueming::agent_loop::{accept_response_chunk, SYSTEM_PROMPT};
use jueming::runtime::{
    allowed_tool, history_read_limit, redact, host_tool_method, message_role_from_name,
    message_role_name, provider_tool_name, secret_scope, secret_username, tool_catalog,
    validate_configuration, configure, MessageRole, ProviderKind, RuntimeConfiguration,
    RuntimeConfigurationInput, RuntimeError, SecretStorage, SecretVault,
};

#[test]
fn remote_requires_https() {
    let result = validate_configuration(&RuntimeConfigurationInput {
        provider_kind: ProviderKind::Https,
        endpoint: "http://example.test/v1".into(),
        model: "x".into(),
        api_key: None,
    });
    assert!(result.is_err());
}

#[test]
fn loopback_rejects_remote() {
    let result = validate_configuration(&RuntimeConfigurationInput {
        provider_kind: ProviderKind::Loopback,
        endpoint: "https://example.test/v1".into(),
        model: "x".into(),
        api_key: None,
    });
    assert!(result.is_err());
}

#[test]
fn endpoint_scopes_do_not_collide() {
    let first = RuntimeConfiguration {
        configured: true,
        provider_kind: ProviderKind::Loopback,
        endpoint: "http://127.0.0.1:11434/v1/".into(),
        model: "one".into(),
        secret_storage: SecretStorage::Absent,
        api_key_configured: false,
    };
    let second = RuntimeConfiguration {
        endpoint: "http://127.0.0.1:11435/v1/".into(),
        ..first.clone()
    };
    assert_ne!(secret_scope(&first), secret_scope(&second));
    assert_ne!(
        secret_username(&secret_scope(&first)),
        secret_username(&secret_scope(&second))
    );
}

#[test]
fn aliases_map_back_to_host_methods() {
    assert_eq!(
        provider_tool_name("project.get_summary").ok(),
        Some("jueming_project_get_summary")
    );
    assert_eq!(
        host_tool_method("jueming_project_get_summary").ok(),
        Some("project.get_summary")
    );
    assert!(provider_tool_name("proposal.approve").is_err());
    assert!(host_tool_method("jueming_unknown").is_err());
}

#[test]
fn stored_roles_read_back() {
    for role in [MessageRole::User, MessageRole::Assistant, MessageRole::Tool] {
        assert_eq!(message_role_from_name(message_role_name(role)), Some(role));
    }
    assert_eq!(message_role_from_name("system"), None);
    assert_eq!(history_read_limit(80), 80);
    assert_eq!(history_read_limit(500), 200);
}

#[test]
fn the_tool_catalog_is_what_the_model_may_call() {
    let catalog = tool_catalog();
    assert_eq!(catalog.len(), 15);
    for tool in &catalog {
        assert!(allowed_tool(tool.name));
        let schema: serde_json::Value = serde_json::from_str(tool.parameters).unwrap();
        assert_eq!(schema["type"], "object");
    }
    assert!(!allowed_tool("proposal.approve"));
    assert!(SYSTEM_PROMPT.contains("native approval"));
}

#[test]
fn provider_responses_are_bounded() {
    assert_eq!(accept_response_chunk(0, 10).unwrap(), 10);
    assert_eq!(accept_response_chunk(524_000, 288).unwrap(), 524_288);
    assert_eq!(
        accept_response_chunk(524_288, 1),
        Err(RuntimeError::InvalidConfiguration("provider response exceeded runtime byte limit".into()))
    );
    assert!(accept_response_chunk(usize::MAX, 1).is_err());
}

#[test]
fn secret_usernames_hash_the_scope() {
    let configuration = RuntimeConfiguration {
        configured: true,
        provider_kind: ProviderKind::Https,
        endpoint: "https://api.example.test/v1".into(),
        model: "m".into(),
        secret_storage: SecretStorage::Absent,
        api_key_configured: false,
    };
    let scope = secret_scope(&configuration);
    assert_eq!(scope, "Https:https://api.example.test/v1");
    let name = secret_username("abc");
    assert_eq!(
        name,
        "model-api-key-ba7816bf8f01cfea414140de5dae2223b00361a396177a9cb410ff61f20015ad"
    );
}

#[test]
fn keys_stay_in_memory_only_when_the_keyring_refuses_them() {
    let mut vault = SecretVault::new();
    assert_eq!(vault.status("scope"), SecretStorage::Absent);
    assert_eq!(vault.record_set("scope", "k1".into(), false), SecretStorage::SessionMemory);
    assert_eq!(vault.memory_key("scope").as_deref(), Some("k1"));
    assert_eq!(vault.status("scope"), SecretStorage::SessionMemory);
    assert_eq!(vault.record_set("scope", "k2".into(), true), SecretStorage::Keyring);
    assert_eq!(vault.memory_key("scope"), None);
    assert_eq!(vault.status("scope"), SecretStorage::Keyring);
    assert_eq!(vault.status("other"), SecretStorage::Absent);
}

#[test]
fn redaction_blanks_every_occurrence_of_the_stored_key() {
    let message = "401: key sk-123 rejected; sk-123 expired";
    let redacted = redact(message, Some("sk-123"));
    assert_eq!(redacted, "401: key [redacted] rejected; [redacted] expired");
    assert!(!redacted.contains("sk-123"));
    assert_eq!(redact(message, None), message);
    assert_eq!(redact(message, Some("")), message);
    assert_eq!(redact("aaa", Some("aa")), "[redacted]a");
}

#[test]
fn configuring_stores_a_given_key_and_notes_a_held_one() {
    let mut vault = SecretVault::new();
    let input = |key: Option<&str>| RuntimeConfigurationInput {
        provider_kind: ProviderKind::Https,
        endpoint: "https://example.test/v1//".into(),
        model: "m".into(),
        api_key: key.map(str::to_owned),
    };
    let refused = configure(&mut vault, &RuntimeConfigurationInput { model: " ".into(), ..input(Some("k")) }, false, false);
    assert_eq!(refused, Err(RuntimeError::InvalidConfiguration("model must not be empty".into())));
    let bare = configure(&mut vault, &input(None), false, false).unwrap();
    assert_eq!(bare.endpoint, "https://example.test/v1/");
    assert!(bare.configured && !bare.api_key_configured);
    assert_eq!(bare.secret_storage, SecretStorage::Absent);
    let keyed = configure(&mut vault, &input(Some("k")), false, false).unwrap();
    assert!(keyed.api_key_configured);
    assert_eq!(keyed.secret_storage, SecretStorage::SessionMemory);
    assert_eq!(vault.memory_key("Https:https://example.test/v1/"), Some("k".to_owned()));
    let again = configure(&mut vault, &input(Some("  ")), false, false).unwrap();
    assert_eq!(again, keyed);
    let in_keyring = configure(&mut vault, &input(Some("k2")), true, false).unwrap();
    assert_eq!(in_keyring.secret_storage, SecretStorage::Keyring);
    assert_eq!(vault.memory_key("Https:https://example.test/v1/"), None);
    let held = configure(&mut vault, &input(None), false, true).unwrap();
    assert_eq!(held.secret_storage, SecretStorage::Keyring);
    assert!(held.api_key_configured);
}

//! The local bridge's authorization and routing rules.

use jueming::transport::{route_call, BindAddress, ServerConfig, TransportError};
use jueming::{authorize, is_native_only, requires_binding, AuthToken};

fn allowed() -> Vec<String> {
    vec!["http://127.0.0.1:1420".to_string()]
}

fn token() -> AuthToken {
    AuthToken::new("test-token").ok().expect("token")
}

#[test]
fn rejects_missing_bearer_token() {
    assert!(authorize(true, None, &allowed(), None, &token()).is_err());
}

#[test]
fn accepts_exact_token_and_configured_origin() {
    assert!(authorize(
        true,
        Some("http://127.0.0.1:1420"),
        &allowed(),
        Some("Bearer test-token"),
        &token()
    )
    .is_ok());
}

#[test]
fn rejects_unconfigured_origin_even_with_a_valid_token() {
    assert!(authorize(
        true,
        Some("https://attacker.invalid"),
        &allowed(),
        Some("Bearer test-token"),
        &token()
    )
    .is_err());
}

#[test]
fn rejects_keepalive_requests_after_acceptance_is_revoked() {
    assert!(authorize(false, None, &allowed(), Some("Bearer test-token"), &token()).is_err());
}

#[test]
fn keeps_navigation_and_reveal_external_but_blocks_native_only_methods() {
    assert!(!is_native_only("ui.navigate"));
    assert!(!is_native_only("ui.reveal"));
    assert!(is_native_only("ui.publish_context"));
    assert!(is_native_only("proposal.approve"));
    assert!(!requires_binding("app.describe"));
    assert!(!requires_binding("app.bind_session"));
    assert!(requires_binding("ui.navigate"));
}

#[test]
fn blank_tokens_are_refused_and_tokens_round_trip() {
    assert!(AuthToken::new("   ").is_err());
    assert_eq!(token().expose_to_sidecar(), "test-token");
}

#[test]
fn refusals_carry_their_status_codes() {
    let disabled = authorize(false, None, &allowed(), None, &token()).unwrap_err();
    assert_eq!((disabled.status, disabled.code.as_str()), (503, "bridge_disabled"));
    let origin = authorize(true, Some(""), &allowed(), Some("Bearer test-token"), &token()).unwrap_err();
    assert_eq!((origin.status, origin.code.as_str()), (403, "origin_rejected"));
    let wrong = authorize(true, None, &allowed(), Some("Bearer test-tokex"), &token()).unwrap_err();
    assert_eq!((wrong.status, wrong.code.as_str()), (401, "unauthorized"));
    let no_prefix = authorize(true, None, &allowed(), Some("test-token"), &token()).unwrap_err();
    assert_eq!(no_prefix.status, 401);
}

#[test]
fn routing_blocks_native_methods_and_requires_bindings() {
    assert_eq!(route_call("proposal.approve", true).unwrap_err().status, 403);
    assert_eq!(route_call("ui.navigate", false).unwrap_err().code, "binding_required");
    assert_eq!(route_call("ui.navigate", true).unwrap(), true);
    assert_eq!(route_call("ui.get_context", true).unwrap(), false);
    assert_eq!(route_call("app.describe", false).unwrap(), false);
    assert_eq!(jueming::transport::app_error_status("stale_revision"), 409);
    assert_eq!(jueming::transport::app_error_status("other"), 400);
}

#[test]
fn rejects_non_loopback_configuration() {
    let config = ServerConfig {
        enabled: false,
        bind_addr: BindAddress::V4([0, 0, 0, 0], 1234),
        auth_token: AuthToken::new("test-token").expect("token"),
        allowed_origins: Vec::new(),
        max_request_bytes: 1,
        request_timeout_secs: 1,
        request_timeout_subsec_nanos: 0,
    };
    assert!(config.validate().is_err());
}

#[test]
fn a_disabled_configuration_is_valid_loopback() {
    let mut config = ServerConfig::disabled(AuthToken::new("t").unwrap());
    assert!(!config.enabled);
    assert!(config.validate().is_ok());
    config.bind_addr = BindAddress::V6([0, 0, 0, 0, 0, 0, 0, 1], 9000);
    assert!(config.validate().is_ok());
    config.bind_addr = BindAddress::V4([127, 1, 2, 3], 9000);
    assert!(config.validate().is_ok());
    config.max_request_bytes = 0;
    assert_eq!(
        config.validate(),
        Err(TransportError::InvalidConfig("max_request_bytes must be greater than zero".into()))
    );
    config.max_request_bytes = 10;
    config.request_timeout_secs = 0;
    assert_eq!(
        config.validate(),
        Err(TransportError::InvalidConfig("request_timeout must be greater than zero".into()))
    );
    config.request_timeout_subsec_nanos = 1;
    assert!(config.validate().is_ok());
}

#[test]
fn tokens_compare_by_their_text() {
    let a = AuthToken::new(" secret ").unwrap();
    assert_eq!(a.expose_to_sidecar(), " secret ");
    assert!(a == AuthToken::new(" secret ").unwrap());
    assert!(a != AuthToken::new("secret").unwrap());
    assert!(a.clone() == a);
}

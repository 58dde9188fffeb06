use sentry_tunnel::{
    default_path, default_timeout, SentryTunnelBuilder, SentryTunnelConfig, SentryTunnelError,
};

#[test]
fn new_config_uses_defaults() {
    let cfg = SentryTunnelConfig::new("o1.ingest.example.io".to_string(), vec!["42".to_string()]);
    assert_eq!(cfg.sentry_host, "o1.ingest.example.io");
    assert_eq!(cfg.allowed_project_ids, vec!["42".to_string()]);
    assert_eq!(cfg.path, "/tunnel");
    assert_eq!(cfg.timeout_secs, 30);
}

#[test]
fn defaults_are_fixed() {
    assert_eq!(default_path(), "/tunnel");
    assert_eq!(default_timeout(), 30);
}

#[test]
fn with_path_and_timeout_replace_fields() {
    let cfg = SentryTunnelConfig::new("o1.ingest.example.io".to_string(), vec![])
        .with_path("/telemetry".to_string())
        .with_timeout(5);
    assert_eq!(cfg.path, "/telemetry");
    assert_eq!(cfg.timeout_secs, 5);
    assert_eq!(cfg.sentry_host, "o1.ingest.example.io");
}

#[test]
fn builder_collects_the_whole_policy() {
    let cfg = SentryTunnelBuilder::new("o1.ingest.example.io".to_string())
        .allow_project_id("1".to_string())
        .allow_project_ids(vec!["2".to_string(), "3".to_string()])
        .path("/t".to_string())
        .timeout_secs(9)
        .build();
    assert_eq!(cfg.sentry_host, "o1.ingest.example.io");
    assert_eq!(
        cfg.allowed_project_ids,
        vec!["1".to_string(), "2".to_string(), "3".to_string()]
    );
    assert_eq!(cfg.path, "/t");
    assert_eq!(cfg.timeout_secs, 9);
}

#[test]
fn builder_starts_with_empty_allow_list() {
    let cfg = SentryTunnelBuilder::new("o1.ingest.example.io".to_string()).build();
    assert!(cfg.allowed_project_ids.is_empty());
    assert_eq!(cfg.path, "/tunnel");
    assert_eq!(cfg.timeout_secs, 30);
}

#[test]
fn error_messages_are_descriptive() {
    assert_eq!(
        SentryTunnelError::InvalidEncoding.message(),
        "Invalid envelope encoding"
    );
    assert_eq!(SentryTunnelError::EmptyEnvelope.message(), "Empty envelope");
    assert_eq!(
        SentryTunnelError::InvalidHeader("oops".to_string()).message(),
        "Invalid envelope header: oops"
    );
    assert_eq!(
        SentryTunnelError::MissingDsn.message(),
        "Missing DSN in envelope"
    );
    assert_eq!(
        SentryTunnelError::InvalidDsnUrl("empty host".to_string()).message(),
        "Invalid DSN URL: empty host"
    );
    assert_eq!(
        SentryTunnelError::InvalidHostname("evil.example.io".to_string()).message(),
        "Invalid sentry hostname: evil.example.io"
    );
    assert_eq!(
        SentryTunnelError::InvalidProjectId("99".to_string()).message(),
        "Invalid sentry project id: 99"
    );
    assert_eq!(
        SentryTunnelError::TunnelError("Upstream returned 502".to_string()).message(),
        "Error tunneling to sentry: Upstream returned 502"
    );
}

#[test]
fn only_tunnel_errors_are_upstream_failures() {
    assert!(SentryTunnelError::TunnelError("x".to_string()).is_upstream_failure());
    assert!(!SentryTunnelError::InvalidEncoding.is_upstream_failure());
    assert!(!SentryTunnelError::EmptyEnvelope.is_upstream_failure());
    assert!(!SentryTunnelError::InvalidHeader("x".to_string()).is_upstream_failure());
    assert!(!SentryTunnelError::MissingDsn.is_upstream_failure());
    assert!(!SentryTunnelError::InvalidDsnUrl("x".to_string()).is_upstream_failure());
    assert!(!SentryTunnelError::InvalidHostname("x".to_string()).is_upstream_failure());
    assert!(!SentryTunnelError::InvalidProjectId("x".to_string()).is_upstream_failure());
}

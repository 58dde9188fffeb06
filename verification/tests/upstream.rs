use sentry_tunnel::{
    classify_upstream_status, dec_string, finish_relay, SentryTunnelError, UpstreamOutcome,
};

#[test]
fn success_statuses_are_accepted() {
    assert_eq!(classify_upstream_status(200), Ok(()));
    assert_eq!(classify_upstream_status(204), Ok(()));
    assert_eq!(classify_upstream_status(299), Ok(()));
}

#[test]
fn non_success_statuses_are_tunnel_errors() {
    match classify_upstream_status(404) {
        Err(SentryTunnelError::TunnelError(msg)) => assert_eq!(msg, "Upstream returned 404"),
        other => panic!("expected TunnelError, got {:?}", other),
    }
    match classify_upstream_status(500) {
        Err(SentryTunnelError::TunnelError(msg)) => assert_eq!(msg, "Upstream returned 500"),
        other => panic!("expected TunnelError, got {:?}", other),
    }
    assert!(classify_upstream_status(199).is_err());
    assert!(classify_upstream_status(300).is_err());
}

#[test]
fn transport_failure_is_a_tunnel_error() {
    // A relay that exceeds its deadline surfaces as a transport failure.
    let outcome = UpstreamOutcome::TransportFailure("operation timed out".to_string());
    match finish_relay(outcome) {
        Err(SentryTunnelError::TunnelError(msg)) => assert_eq!(msg, "operation timed out"),
        other => panic!("expected TunnelError, got {:?}", other),
    }
}

#[test]
fn responded_outcome_is_classified_by_status() {
    assert_eq!(finish_relay(UpstreamOutcome::Responded(200)), Ok(()));
    match finish_relay(UpstreamOutcome::Responded(503)) {
        Err(SentryTunnelError::TunnelError(msg)) => assert_eq!(msg, "Upstream returned 503"),
        other => panic!("expected TunnelError, got {:?}", other),
    }
}

#[test]
fn decimal_rendering_is_exact() {
    assert_eq!(dec_string(0), "0");
    assert_eq!(dec_string(7), "7");
    assert_eq!(dec_string(30), "30");
    assert_eq!(dec_string(404), "404");
    assert_eq!(dec_string(65535), "65535");
}

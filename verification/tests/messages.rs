use secure_tunnel_core::cli::{CliError, metadata_text, usage_text};
use secure_tunnel_core::harness::{ConformanceScenario, SmokeScenario, UnknownScenario};
use secure_tunnel_core::{
    ApiError, CarrierKind, FallbackReason, TransportSelectionError, example_service_descriptor,
};

#[test]
fn api_errors_read_as_documented() {
    let cases = [
        (
            ApiError::InvalidServiceDescriptor("noise_suite must match the v1 Noise suite identifier"),
            "invalid service descriptor: noise_suite must match the v1 Noise suite identifier",
        ),
        (
            ApiError::UnavailableCarrier(CarrierKind::Wss),
            "carrier `wss` is not available in this descriptor",
        ),
        (
            ApiError::RecordTooLarge { actual: 65_520, max: 65_519 },
            "record payload size 65520 exceeds v1 limit 65519",
        ),
        (
            ApiError::TransportPlanBlocked("no wss"),
            "transport planning is blocked: no wss",
        ),
        (
            ApiError::MissingCarrierConnector(CarrierKind::Quic),
            "carrier connector `quic` is not configured",
        ),
        (
            ApiError::TransportFallback(FallbackReason::OuterQuicClosedEarly),
            "transport attempt may fall back after `outer_quic_closed_early`",
        ),
        (
            ApiError::InnerNoiseFailure,
            "secure-ready failed during the inner Noise handshake",
        ),
        (ApiError::InnerTrustFailure, "secure-ready failed during trust validation"),
        (
            ApiError::PostHandshakeAuthFailure,
            "secure-ready failed during post-handshake authentication",
        ),
        (
            ApiError::TransportSelectionExhausted,
            "transport selection exhausted all candidates",
        ),
        (
            ApiError::TransportSelectionExhaustedWithFallback(FallbackReason::OuterPathFailure),
            "transport selection exhausted all candidates after `outer_path_failure`",
        ),
        (
            ApiError::TransportSelectorInvariant("bad state"),
            "transport selector invariant violated: bad state",
        ),
        (ApiError::TransportClosed, "framed transport is closed"),
    ];
    for (error, text) in cases {
        assert_eq!(error.message(), text);
    }
    assert_eq!(
        ApiError::RecordTooLarge { actual: 0, max: usize::MAX }.message(),
        format!("record payload size 0 exceeds v1 limit {}", usize::MAX)
    );
}

#[test]
fn selection_error_reads_with_its_cause() {
    let error = TransportSelectionError::without_attempts(ApiError::TransportClosed);
    assert_eq!(error.message(), "transport selection failed: framed transport is closed");
}

#[test]
fn cli_texts_read_as_the_tool_prints_them() {
    assert_eq!(
        usage_text(),
        "usage:\n  secure-tunnel-cli\n  secure-tunnel-cli smoke [--scenario all|quic-success|wss-fallback] [--format json]\n  secure-tunnel-cli conformance [--scenario all|<name>] [--format json]"
    );
    let descriptor = example_service_descriptor().unwrap();
    assert_eq!(
        metadata_text(&descriptor),
        "secure-tunnel-cli\nprotocol_id: secure-tunnel-v1\npreferred_carrier: quic\nservice: secure-tunnel-api.prod"
    );
    assert_eq!(CliError::usage("unknown command").message(), "unknown command");
    assert_eq!(
        CliError::UnknownScenario("unknown smoke scenario").message(),
        "harness failed: unknown smoke scenario"
    );
}

#[test]
fn scenarios_parse_from_either_spelling() {
    assert_eq!("wss_fallback".parse::<SmokeScenario>(), Ok(SmokeScenario::WssFallback));
    assert_eq!(
        "nope".parse::<SmokeScenario>(),
        Err(UnknownScenario("unknown smoke scenario"))
    );
    assert_eq!(
        "proxied-wss".parse::<ConformanceScenario>(),
        Ok(ConformanceScenario::ProxiedWss)
    );
    assert_eq!(
        "nope".parse::<ConformanceScenario>(),
        Err(UnknownScenario("unknown conformance scenario"))
    );
}

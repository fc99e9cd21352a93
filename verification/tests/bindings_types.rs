use secure_tunnel_core::TrustAnchor;
use secure_tunnel_core::bindings::{
    FlutterClientConfig, FlutterDescriptorTrustAnchor, sdk_config as flutter_sdk_config,
    SecureTunnelAccountAuthMode, SecureTunnelStatus, account_auth_mode_from_code, allocation_size, is_secure_tunnel_error,
    pack_address_len, wasm_error_text,
};
use secure_tunnel_core::harness::{
    ConformanceScenario, SmokeScenario, current_conformance_scenarios, pending_rows,
};
use secure_tunnel_core::noise::{
    SnowNk1ClientEvaluator, check_plaintext_size, normalize_handshake_transport_error,
};
use secure_tunnel_core::sdk_types::{
    AccountAuthMode, SecureChannelArtifacts, ClientConfig, sdk_config as ffi_sdk_config, SecureTunnelError, TransportAttemptReport, internal_error, invalid_config,
};
use secure_tunnel_core::{
    ApiError, CarrierKind, FallbackReason, MAX_APPLICATION_PLAINTEXT_SIZE,
    example_service_descriptor, obfuscated_service_static_public_key, protocol_id_v1,
};

#[test]
fn protocol_id_is_stable() {
    assert_eq!(protocol_id_v1(), "secure-tunnel-v1");
}

#[test]
fn smoke_scenarios_round_trip_their_spellings() {
    for scenario in [SmokeScenario::QuicSuccess, SmokeScenario::WssFallback] {
        assert_eq!(SmokeScenario::from_name(scenario.as_str()), Some(scenario));
    }
    assert_eq!(SmokeScenario::from_name("wss_fallback"), Some(SmokeScenario::WssFallback));
    assert_eq!(SmokeScenario::from_name("nope"), None);
    assert_eq!(
        ConformanceScenario::from(SmokeScenario::WssFallback),
        ConformanceScenario::QuicRejectedWssFallback
    );
}

#[test]
fn conformance_scenarios_round_trip_their_spellings() {
    let scenarios = current_conformance_scenarios();
    assert_eq!(scenarios.len(), 19);
    for scenario in scenarios {
        assert_eq!(ConformanceScenario::from_name(scenario.as_str()), Some(scenario));
        let snake = scenario.as_str().replace('-', "_");
        assert_eq!(ConformanceScenario::from_name(&snake), Some(scenario));
    }
    assert_eq!(ConformanceScenario::from_name("abrupt-close"), None);
}

#[test]
fn pending_rows_name_the_close_fixture() {
    let rows = pending_rows();
    assert_eq!(rows.len(), 2);
    assert_eq!(rows[0].scenario, "abrupt-close");
    assert_eq!(rows[1].scenario, "truncated-close");
    assert_eq!(
        rows[1].reason,
        "requires close-failure fixture beyond current local server"
    );
}

#[test]
fn status_codes_are_stable() {
    assert_eq!(SecureTunnelStatus::SecureTunnelStatusSuccess.code(), 0);
    assert_eq!(SecureTunnelStatus::SecureTunnelStatusSessionFailure.code(), 9);
    assert_eq!(
        SecureTunnelStatus::from_code(4),
        Some(SecureTunnelStatus::SecureTunnelStatusInvalidDescriptor)
    );
    assert_eq!(SecureTunnelStatus::from_code(10), None);
    assert_eq!(SecureTunnelAccountAuthMode::SecureTunnelAccountAuthModeResume.code(), 1);
}

#[test]
fn wasm_abi_encodings() {
    assert_eq!(wasm_error_text("bad"), "Error: bad");
    assert!(is_secure_tunnel_error(b"Error: bad"));
    assert!(!is_secure_tunnel_error(b"Error"));
    assert!(!is_secure_tunnel_error(b"Okay: fine"));
    assert_eq!(pack_address_len(0x10, 0x20), 0x0000_0010_0000_0020);
    assert_eq!(allocation_size(0), 1);
    assert_eq!(allocation_size(5), 5);
}

#[test]
fn sdk_errors_keep_kind_message_and_attempts() {
    let error = internal_error("boom".to_owned());
    assert_eq!(error.kind(), "Internal");
    assert_eq!(error.message(), "boom");
    assert!(error.attempts().is_empty());
    assert_eq!(invalid_config("x".to_owned()).kind(), "InvalidConfig");
    let attempt = TransportAttemptReport {
        carrier: secure_tunnel_core::sdk_types::Carrier::Quic,
        source: secure_tunnel_core::sdk_types::CandidateSource::PreferredCarrier,
        outcome: secure_tunnel_core::sdk_types::TransportAttemptOutcome::Failed,
        fallback_reason: None,
        failure_kind: Some("InnerTrust".to_owned()),
        failure_message: Some("untrusted".to_owned()),
    };
    let error = SecureTunnelError::with_attempts(
        "Connect".to_owned(),
        "failed".to_owned(),
        vec![attempt.clone()],
    );
    assert_eq!(error.attempts(), vec![attempt]);
}

#[test]
fn handshake_decisions() {
    assert_eq!(
        normalize_handshake_transport_error(CarrierKind::Quic, ApiError::TransportClosed),
        ApiError::TransportFallback(FallbackReason::OuterQuicClosedEarly)
    );
    assert_eq!(
        normalize_handshake_transport_error(CarrierKind::Wss, ApiError::TransportClosed),
        ApiError::TransportClosed
    );
    assert_eq!(check_plaintext_size(MAX_APPLICATION_PLAINTEXT_SIZE), Ok(()));
    assert_eq!(
        check_plaintext_size(MAX_APPLICATION_PLAINTEXT_SIZE + 1),
        Err(ApiError::RecordTooLarge {
            actual: MAX_APPLICATION_PLAINTEXT_SIZE + 1,
            max: MAX_APPLICATION_PLAINTEXT_SIZE,
        })
    );
}

#[test]
fn evaluator_prepares_the_example_handshake() {
    let descriptor = example_service_descriptor().unwrap();
    let evaluator = SnowNk1ClientEvaluator::new();
    let inputs = evaluator.prepare_handshake(&descriptor, 1_742_000_000).unwrap();
    assert_eq!(inputs.prologue, descriptor.noise_prologue().unwrap());
    assert_eq!(inputs.service_static_public_key, obfuscated_service_static_public_key());

    let stranger = SnowNk1ClientEvaluator::with_pinned_trust(
        evaluator.trusted_roots().clone(),
        vec![[1_u8; 32]],
    );
    assert_eq!(
        stranger.prepare_handshake(&descriptor, 1_742_000_000),
        Err(ApiError::InnerTrustFailure)
    );
}

fn flutter_config(pinned: Vec<Vec<u8>>, anchors: Vec<FlutterDescriptorTrustAnchor>) -> FlutterClientConfig {
    FlutterClientConfig {
        quic_reprobe_delay_seconds: 300,
        connect_timeout_ms: 1,
        quic_connect_timeout_ms: 2,
        wss_connect_timeout_ms: 3,
        secure_ready_timeout_ms: 4,
        record_read_timeout_ms: 5,
        record_write_timeout_ms: 6,
        outer_root_certificates_der: Vec::new(),
        descriptor_trust_anchors: anchors,
        pinned_service_static_public_keys: pinned,
    }
}

#[test]
fn flutter_config_keeps_defaults_for_empty_lists() {
    let config = flutter_sdk_config(flutter_config(Vec::new(), Vec::new())).unwrap();
    assert_eq!(config.transport_policy.unwrap().quic_reprobe_delay_seconds, 300);
    assert_eq!(config.transport_policy.unwrap().record_write_timeout_ms, 6);
    assert_eq!(config.outer_root_certificates_der, None);
    assert_eq!(config.descriptor_trust_anchors, None);
    assert_eq!(config.pinned_service_static_public_keys, None);
}

#[test]
fn flutter_config_converts_given_roots_and_keys() {
    let anchor = FlutterDescriptorTrustAnchor {
        key_id: "root".to_owned(),
        algorithm: "ed25519".to_owned(),
        public_key: "AAAA".to_owned(),
    };
    let mut input = flutter_config(vec![vec![7_u8; 32]], vec![anchor]);
    input.outer_root_certificates_der = vec![vec![1, 2, 3]];
    let config = flutter_sdk_config(input).unwrap();
    assert_eq!(config.outer_root_certificates_der, Some(vec![vec![1, 2, 3]]));
    assert_eq!(
        config.descriptor_trust_anchors,
        Some(vec![TrustAnchor {
            key_id: "root".to_owned(),
            algorithm: "ed25519".to_owned(),
            public_key: "AAAA".to_owned(),
        }])
    );
    assert_eq!(config.pinned_service_static_public_keys, Some(vec![[7_u8; 32]]));
}

#[test]
fn flutter_config_rejects_short_pinned_key() {
    assert_eq!(
        flutter_sdk_config(flutter_config(vec![vec![7_u8; 32], vec![7_u8; 31]], Vec::new())),
        Err("pinned service static public keys must be 32 bytes".to_owned())
    );
}

#[test]
fn ffi_config_keeps_given_lists_and_rejects_long_key() {
    let input = ClientConfig {
        quic_reprobe_delay_seconds: 9,
        connect_timeout_ms: 1,
        quic_connect_timeout_ms: 2,
        wss_connect_timeout_ms: 3,
        secure_ready_timeout_ms: 4,
        record_read_timeout_ms: 5,
        record_write_timeout_ms: 6,
        outer_root_certificates_der: Vec::new(),
        descriptor_trust_anchors: Vec::new(),
        pinned_service_static_public_keys: Vec::new(),
    };
    let config = ffi_sdk_config(input.clone()).unwrap();
    assert_eq!(config.transport_policy.unwrap().quic_reprobe_delay_seconds, 9);
    assert_eq!(config.outer_root_certificates_der, None);
    assert_eq!(config.descriptor_trust_anchors, Some(Vec::new()));
    assert_eq!(config.pinned_service_static_public_keys, Some(Vec::new()));

    let mut bad = input;
    bad.pinned_service_static_public_keys = vec![vec![1_u8; 33]];
    let error = ffi_sdk_config(bad).unwrap_err();
    assert_eq!(error.kind(), "InvalidConfig");
    assert_eq!(error.message(), "pinned service static public keys must be 32 bytes");
}

#[test]
fn error_attempts_and_security_artifacts_remain_accessible() {
    let error = SecureTunnelError::with_attempts(
        "outer_path_failure".to_owned(),
        "udp path failed".to_owned(),
        vec![TransportAttemptReport {
            carrier: secure_tunnel_core::sdk_types::Carrier::Quic,
            source: secure_tunnel_core::sdk_types::CandidateSource::PreferredCarrier,
            outcome: secure_tunnel_core::sdk_types::TransportAttemptOutcome::Failed,
            fallback_reason: None,
            failure_kind: Some("outer_path_failure".to_owned()),
            failure_message: Some("udp path failed".to_owned()),
        }],
    );
    assert_eq!(error.attempts().len(), 1);

    let artifacts = SecureChannelArtifacts {
        handshake_hash: Some(vec![1, 2, 3]),
        channel_binding: Some(vec![4, 5, 6]),
        service_static_public_key: Some(vec![7; 32]),
    };
    assert_eq!(artifacts.handshake_hash, Some(vec![1, 2, 3]));
    assert_eq!(artifacts.channel_binding, Some(vec![4, 5, 6]));
    assert_eq!(artifacts.service_static_public_key, Some(vec![7; 32]));
}

#[test]
fn ffi_errors_expose_stable_snake_case_error_kinds() {
    let attempt = TransportAttemptReport {
        carrier: secure_tunnel_core::sdk_types::Carrier::Quic,
        source: secure_tunnel_core::sdk_types::CandidateSource::PreferredCarrier,
        outcome: secure_tunnel_core::sdk_types::TransportAttemptOutcome::Failed,
        fallback_reason: None,
        failure_kind: Some("outer_path_failure".to_owned()),
        failure_message: Some("udp path failed".to_owned()),
    };
    assert_eq!(attempt.failure_kind.as_deref(), Some("outer_path_failure"));

    let error = SecureTunnelError::with_attempts(
        "outer_path_failure".to_owned(),
        "udp path failed".to_owned(),
        vec![attempt],
    );
    assert_eq!(error.kind(), "outer_path_failure");
    let attempts = error.attempts();
    assert_eq!(attempts[0].failure_kind.as_deref(), Some("outer_path_failure"));
}

#[test]
fn secure_tunnel_error_displays_kind_then_message() {
    let error = SecureTunnelError::new("outer_path_failure".to_owned(), "udp path failed".to_owned());
    assert_eq!(error.to_string(), "outer_path_failure: udp path failed");
    assert_eq!(internal_error("boom".to_owned()).to_string(), "Internal: boom");
    assert_eq!(SecureTunnelError::new(String::new(), String::new()).to_string(), ": ");
}

#[test]
fn account_auth_mode_codes() {
    assert_eq!(account_auth_mode_from_code(0), Ok(AccountAuthMode::Fresh));
    assert_eq!(account_auth_mode_from_code(1), Ok(AccountAuthMode::Resume));
    assert_eq!(
        account_auth_mode_from_code(2),
        Err((SecureTunnelStatus::SecureTunnelStatusInvalidConfig, "account auth mode must be 0 or 1"))
    );
    assert_eq!(
        account_auth_mode_from_code(u32::MAX),
        Err((SecureTunnelStatus::SecureTunnelStatusInvalidConfig, "account auth mode must be 0 or 1"))
    );
}

#[test]
fn example_descriptor_is_returned() {
    let descriptor = example_service_descriptor().unwrap();
    assert_eq!(descriptor.descriptor_serial, 1);
    assert_eq!(descriptor.validate(), Ok(()));
}

#[test]
fn smoke_scenarios_offer_their_quic_alpn() {
    assert_eq!(SmokeScenario::QuicSuccess.quic_server_alpn(), b"secure-tunnel-v1".to_vec());
    assert_eq!(SmokeScenario::WssFallback.quic_server_alpn(), b"wrong-alpn".to_vec());
}

use base64::Engine;
use secure_tunnel_core::descriptor::wss_url_has_authority;
use secure_tunnel_core::descriptor_auth::{sign_example_descriptor, validate_descriptor_window};
use secure_tunnel_core::timestamp::parse_rfc3339_utc_seconds;
use secure_tunnel_core::{
    ApiError, CandidateSource, CarrierKind, FallbackReason, NOISE_SUITE_V1, PRODUCT_LABEL_V1,
    PROLOGUE_DOMAIN_V1, TransportCacheSnapshot, example_descriptor_trust_anchors,
    example_service_descriptor, obfuscated_service_static_public_key,
};

const VALID_NOW: u64 = 1_742_000_000;

#[test]
fn connect_plan_prefers_quic_on_unknown_network() {
    let descriptor = example_service_descriptor().unwrap();

    let plan = descriptor.connect_plan(None, 1_742_000_000).unwrap();

    assert_eq!(plan.len(), 2);
    assert_eq!(plan[0].target.carrier(), CarrierKind::Quic);
    assert_eq!(plan[0].source, CandidateSource::PreferredCarrier);
    assert_eq!(plan[1].target.carrier(), CarrierKind::Wss);
    assert_eq!(plan[1].source, CandidateSource::FallbackCarrier);
}

#[test]
fn connect_plan_uses_only_wss_when_quic_bad_cache_is_active() {
    let descriptor = example_service_descriptor().unwrap();
    let cache = TransportCacheSnapshot {
        last_successful_carrier: Some(CarrierKind::Wss),
        last_quic_failure: Some(FallbackReason::OuterPathFailure),
        next_quic_probe_after_unix_seconds: Some(VALID_NOW + 1),
        highest_descriptor_serial: Some(1),
    };

    let plan = descriptor.connect_plan(Some(&cache), VALID_NOW).unwrap();

    assert_eq!(plan.len(), 1);
    assert_eq!(plan[0].target.carrier(), CarrierKind::Wss);
    assert_eq!(plan[0].source, CandidateSource::CachedQuicBadNetwork);
}

#[test]
fn connect_plan_fails_fast_when_cache_blocks_quic_and_fallback_is_disabled() {
    let mut descriptor = example_service_descriptor().unwrap();
    descriptor.selection_policy.allow_wss_fallback = false;
    descriptor.carriers.wss = None;
    let cache = TransportCacheSnapshot {
        last_successful_carrier: None,
        last_quic_failure: Some(FallbackReason::OuterPathFailure),
        next_quic_probe_after_unix_seconds: Some(VALID_NOW + 1),
        highest_descriptor_serial: Some(1),
    };

    let error = descriptor
        .connect_plan(Some(&cache), VALID_NOW)
        .unwrap_err();

    assert_eq!(
        error,
        ApiError::TransportPlanBlocked(
            "cached QUIC-bad posture requires WSS fallback or cache expiry"
        )
    );
}

#[test]
fn connect_plan_reprobes_quic_after_cache_deadline() {
    let descriptor = example_service_descriptor().unwrap();
    let cache = TransportCacheSnapshot {
        last_successful_carrier: Some(CarrierKind::Wss),
        last_quic_failure: Some(FallbackReason::OuterPathFailure),
        next_quic_probe_after_unix_seconds: Some(VALID_NOW),
        highest_descriptor_serial: Some(1),
    };

    let plan = descriptor.connect_plan(Some(&cache), VALID_NOW).unwrap();

    assert_eq!(plan[0].target.carrier(), CarrierKind::Quic);
    assert_eq!(
        plan[0].source,
        CandidateSource::QuicReprobeAfterCachedFallback
    );
}

#[test]
fn connect_plan_rejects_expired_descriptor() {
    let mut descriptor = example_service_descriptor().unwrap();
    descriptor.not_after = "2024-01-02T00:00:00Z".to_owned();

    let error = descriptor.connect_plan(None, VALID_NOW).unwrap_err();

    assert_eq!(
        error,
        ApiError::InvalidServiceDescriptor("descriptor is outside its validity window")
    );
}

#[test]
fn connect_plan_rejects_serial_rollback() {
    let descriptor = example_service_descriptor().unwrap();
    let cache = TransportCacheSnapshot {
        last_successful_carrier: Some(CarrierKind::Quic),
        last_quic_failure: None,
        next_quic_probe_after_unix_seconds: None,
        highest_descriptor_serial: Some(2),
    };

    let error = descriptor
        .connect_plan(Some(&cache), VALID_NOW)
        .unwrap_err();

    assert_eq!(
        error,
        ApiError::InvalidServiceDescriptor(
            "descriptor_serial is older than the cached accepted descriptor"
        )
    );
}

#[test]
fn connect_plan_without_fallback_holds_only_quic() {
    let mut descriptor = example_service_descriptor().unwrap();
    descriptor.selection_policy.allow_wss_fallback = false;

    let plan = descriptor.connect_plan(None, VALID_NOW).unwrap();

    assert_eq!(plan.len(), 1);
    assert_eq!(plan[0].target.carrier(), CarrierKind::Quic);
}

#[test]
fn validate_requires_wss_target_when_fallback_enabled() {
    let mut descriptor = example_service_descriptor().unwrap();
    descriptor.carriers.wss = None;

    let error = descriptor.validate().unwrap_err();

    assert_eq!(
        error,
        ApiError::InvalidServiceDescriptor("allow_wss_fallback requires a WSS carrier target")
    );
}

#[test]
fn validate_requires_quic_as_preferred_carrier() {
    let mut descriptor = example_service_descriptor().unwrap();
    descriptor.selection_policy.preferred_carrier = CarrierKind::Wss;

    let error = descriptor.validate().unwrap_err();

    assert_eq!(
        error,
        ApiError::InvalidServiceDescriptor("v1 requires QUIC as the preferred carrier")
    );
}

#[test]
fn validate_rejects_invalid_quic_alpn() {
    let mut descriptor = example_service_descriptor().unwrap();
    descriptor.carriers.quic.as_mut().expect("quic target").alpn = "wrong".to_owned();

    let error = descriptor.validate().unwrap_err();

    assert_eq!(
        error,
        ApiError::InvalidServiceDescriptor("QUIC ALPN must match the v1 descriptor value")
    );
}

#[test]
fn validate_rejects_invalid_wss_subprotocol() {
    let mut descriptor = example_service_descriptor().unwrap();
    descriptor
        .carriers
        .wss
        .as_mut()
        .expect("wss target")
        .subprotocol = "wrong".to_owned();

    let error = descriptor.validate().unwrap_err();

    assert_eq!(
        error,
        ApiError::InvalidServiceDescriptor("WSS subprotocol must match the v1 descriptor value")
    );
}

#[test]
fn validate_rejects_wss_url_without_authority() {
    let mut descriptor = example_service_descriptor().unwrap();
    descriptor.carriers.wss.as_mut().expect("wss target").url = "wss:///tunnel/v1".to_owned();

    let error = descriptor.validate().unwrap_err();

    assert_eq!(
        error,
        ApiError::InvalidServiceDescriptor(
            "WSS target URL must use wss:// with a non-empty authority"
        )
    );
}

#[test]
fn validate_rejects_wss_url_with_query_but_no_authority() {
    let mut descriptor = example_service_descriptor().unwrap();
    descriptor.carriers.wss.as_mut().expect("wss target").url = "wss://?q".to_owned();

    let error = descriptor.validate().unwrap_err();

    assert_eq!(
        error,
        ApiError::InvalidServiceDescriptor(
            "WSS target URL must use wss:// with a non-empty authority"
        )
    );
}

#[test]
fn validate_rejects_invalid_trust_anchor_public_key() {
    let mut descriptor = example_service_descriptor().unwrap();
    descriptor.trust_anchors[0].public_key = "<base64>".to_owned();

    let error = descriptor.validate().unwrap_err();

    assert_eq!(
        error,
        ApiError::InvalidServiceDescriptor(
            "trust anchor public_key must be a valid Ed25519 verifying key"
        )
    );
}

#[test]
fn validate_rejects_invalid_service_static_public_key() {
    let mut descriptor = example_service_descriptor().unwrap();
    descriptor.service_static_public_key = "<base64>".to_owned();

    let error = descriptor.validate().unwrap_err();

    assert_eq!(
        error,
        ApiError::InvalidServiceDescriptor(
            "service_static_public_key must be base64-encoded 32-byte public key"
        )
    );
}

#[test]
fn validate_rejects_invalid_signed_descriptor_hash() {
    let mut descriptor = example_service_descriptor().unwrap();
    descriptor.signed_descriptor_hash = "<base64>".to_owned();

    let error = descriptor.validate().unwrap_err();

    assert_eq!(
        error,
        ApiError::InvalidServiceDescriptor(
            "signed_descriptor_hash must be base64-encoded 32-byte hash"
        )
    );
}

#[test]
fn validate_reports_checks_in_order() {
    let mut descriptor = example_service_descriptor().unwrap();
    descriptor.descriptor_version = 2;
    descriptor.not_before = "  ".to_owned();
    assert_eq!(
        descriptor.validate().unwrap_err(),
        ApiError::InvalidServiceDescriptor("descriptor_version must be 1 for v1 descriptors")
    );
    descriptor.descriptor_version = 1;
    assert_eq!(
        descriptor.validate().unwrap_err(),
        ApiError::InvalidServiceDescriptor("not_before must not be empty")
    );
    let mut descriptor = example_service_descriptor().unwrap();
    descriptor.descriptor_serial = 0;
    assert_eq!(
        descriptor.validate().unwrap_err(),
        ApiError::InvalidServiceDescriptor("descriptor_serial must not be zero")
    );
    let mut descriptor = example_service_descriptor().unwrap();
    descriptor.carriers.quic.as_mut().expect("quic target").port = 0;
    assert_eq!(
        descriptor.validate().unwrap_err(),
        ApiError::InvalidServiceDescriptor("QUIC port must not be zero")
    );
    let mut descriptor = example_service_descriptor().unwrap();
    descriptor.descriptor_signature.algorithm = "rsa".to_owned();
    assert_eq!(
        descriptor.validate().unwrap_err(),
        ApiError::InvalidServiceDescriptor("descriptor_signature algorithm must be ed25519")
    );
    let mut descriptor = example_service_descriptor().unwrap();
    descriptor.trust_anchors.clear();
    assert_eq!(
        descriptor.validate().unwrap_err(),
        ApiError::InvalidServiceDescriptor("at least one trust anchor is required")
    );
}

#[test]
fn example_descriptor_is_valid() {
    let descriptor = example_service_descriptor().unwrap();
    assert_eq!(descriptor.validate(), Ok(()));
    assert_eq!(descriptor.descriptor_serial, 1);
    assert_eq!(descriptor.trust_anchors, example_descriptor_trust_anchors());
}

#[test]
fn wss_url_authority_rules() {
    assert!(wss_url_has_authority("wss://api.example.com/tunnel/v1"));
    assert!(wss_url_has_authority("wss://api.example.com"));
    assert!(!wss_url_has_authority("ws://api.example.com/"));
    assert!(!wss_url_has_authority("wss://#frag"));
    assert!(!wss_url_has_authority("wss://a b/"));
    assert!(!wss_url_has_authority("wss://"));
}

#[test]
fn authorize_at_accepts_signed_example_descriptor() {
    let descriptor = example_service_descriptor().unwrap();

    descriptor
        .authorize_at(VALID_NOW, &example_descriptor_trust_anchors())
        .unwrap();
}

#[test]
fn authorize_at_rejects_unpinned_descriptor_root() {
    let descriptor = example_service_descriptor().unwrap();

    let error = descriptor.authorize_at(VALID_NOW, &[]).unwrap_err();

    assert_eq!(
        error,
        ApiError::InvalidServiceDescriptor(
            "at least one pinned descriptor trust anchor is required"
        )
    );
}

#[test]
fn authorize_at_rejects_tampered_service_static_key() {
    let mut descriptor = example_service_descriptor().unwrap();
    descriptor.service_static_public_key =
        base64::engine::general_purpose::STANDARD.encode([8_u8; 32]);

    let error = descriptor
        .authorize_at(VALID_NOW, &example_descriptor_trust_anchors())
        .unwrap_err();

    assert_eq!(
        error,
        ApiError::InvalidServiceDescriptor(
            "signed_descriptor_hash must match the canonical descriptor body"
        )
    );
}

#[test]
fn authorize_at_rejects_tampered_signature() {
    let mut descriptor = example_service_descriptor().unwrap();
    let mut bytes = base64::engine::general_purpose::STANDARD
        .decode(descriptor.descriptor_signature.signature.as_bytes())
        .unwrap();
    bytes[0] ^= 1;
    descriptor.descriptor_signature.signature =
        base64::engine::general_purpose::STANDARD.encode(bytes);

    let error = descriptor
        .authorize_at(VALID_NOW, &example_descriptor_trust_anchors())
        .unwrap_err();

    assert_eq!(
        error,
        ApiError::InvalidServiceDescriptor("descriptor_signature is invalid")
    );
}

#[test]
fn resigning_after_a_change_authorizes_again() {
    let mut descriptor = example_service_descriptor().unwrap();
    descriptor.carriers.quic.as_mut().expect("quic target").port = 4433;
    assert!(descriptor.authorize_at(VALID_NOW, &example_descriptor_trust_anchors()).is_err());
    descriptor.resign_with_example_key_for_testing().unwrap();
    descriptor
        .authorize_at(VALID_NOW, &example_descriptor_trust_anchors())
        .unwrap();
    let signed = sign_example_descriptor(descriptor.clone()).unwrap();
    assert_eq!(signed, descriptor);
}

#[test]
fn noise_prologue_uses_canonical_field_order_and_length_prefixes() {
    let descriptor = example_service_descriptor().unwrap();

    let prologue = descriptor.noise_prologue().unwrap();
    let mut expected = Vec::new();
    expected.extend_from_slice(&PROLOGUE_DOMAIN_V1);
    push_string(&mut expected, PRODUCT_LABEL_V1);
    expected.extend_from_slice(&1_u16.to_be_bytes());
    push_string(&mut expected, "secure-tunnel-api");
    push_string(&mut expected, "prod");
    push_string(&mut expected, "api.example.com");
    expected.extend_from_slice(&descriptor.signed_descriptor_hash_bytes().unwrap());
    push_string(&mut expected, NOISE_SUITE_V1);

    assert_eq!(prologue, expected);
}

fn push_string(out: &mut Vec<u8>, value: &str) {
    let len = match u16::try_from(value.len()) {
        Ok(len) => len,
        Err(error) => panic!("test string should fit in u16: {error}"),
    };
    out.extend_from_slice(&len.to_be_bytes());
    out.extend_from_slice(value.as_bytes());
}

#[test]
fn generated_service_static_key_decodes() {
    assert_eq!(obfuscated_service_static_public_key(), [9_u8; 32]);
}

#[test]
fn timestamps_parse_to_unix_seconds() {
    assert_eq!(parse_rfc3339_utc_seconds("1970-01-01T00:00:00Z"), Ok(0));
    assert_eq!(parse_rfc3339_utc_seconds("2024-01-01T00:00:00Z"), Ok(1_704_067_200));
    assert_eq!(parse_rfc3339_utc_seconds("2024-02-29T12:34:56Z"), Ok(1_709_210_096));
    assert_eq!(
        parse_rfc3339_utc_seconds("2023-02-29T00:00:00Z"),
        Err(ApiError::InvalidServiceDescriptor(
            "descriptor timestamp has invalid date or time fields"
        ))
    );
    assert_eq!(
        parse_rfc3339_utc_seconds("2024-01-01 00:00:00Z"),
        Err(ApiError::InvalidServiceDescriptor(
            "descriptor timestamps must use YYYY-MM-DDTHH:MM:SSZ"
        ))
    );
    assert_eq!(
        parse_rfc3339_utc_seconds("2024-0a-01T00:00:00Z"),
        Err(ApiError::InvalidServiceDescriptor(
            "descriptor timestamp contains non-digit characters"
        ))
    );
    assert_eq!(
        parse_rfc3339_utc_seconds("1969-12-31T23:59:59Z"),
        Err(ApiError::InvalidServiceDescriptor(
            "descriptor timestamp has invalid date or time fields"
        ))
    );
}

#[test]
fn validity_window_must_be_ordered() {
    let mut descriptor = example_service_descriptor().unwrap();
    descriptor.not_after = descriptor.not_before.clone();
    assert_eq!(
        validate_descriptor_window(&descriptor, VALID_NOW),
        Err(ApiError::InvalidServiceDescriptor(
            "descriptor validity window must be ordered"
        ))
    );
    let descriptor = example_service_descriptor().unwrap();
    assert_eq!(descriptor.ensure_valid_at(1_704_067_200), Ok(()));
    assert!(descriptor.ensure_valid_at(1_704_067_199).is_err());
}

#[test]
fn example_window_runs_from_2024_to_2027() {
    let descriptor = example_service_descriptor().unwrap();
    assert!(descriptor.ensure_valid_at(1_704_067_200).is_ok());
    assert!(descriptor.ensure_valid_at(1_798_761_599).is_ok());
    assert!(descriptor.ensure_valid_at(1_704_067_199).is_err());
    assert!(descriptor.ensure_valid_at(1_798_761_600).is_err());
    assert_eq!(parse_rfc3339_utc_seconds("2024-01-01T00:00:00Z"), Ok(1_704_067_200));
    assert_eq!(parse_rfc3339_utc_seconds("2027-01-01T00:00:00Z"), Ok(1_798_761_600));
}

#[test]
fn timestamp_seconds_split_into_day_and_time_of_day() {
    let seconds = parse_rfc3339_utc_seconds("2024-03-05T10:20:30Z").unwrap();
    assert_eq!(seconds % 86_400, 10 * 3600 + 20 * 60 + 30);
    let midnight = parse_rfc3339_utc_seconds("2024-03-05T00:00:00Z").unwrap();
    assert_eq!(seconds / 86_400, midnight / 86_400);
    assert_eq!(midnight % 86_400, 0);
}

#[test]
fn example_descriptor_is_authorized_across_its_window() {
    let descriptor = example_service_descriptor().unwrap();
    let roots = example_descriptor_trust_anchors();
    assert_eq!(descriptor.authorize_at(1_704_067_200, &roots), Ok(()));
    assert_eq!(descriptor.authorize_at(1_798_761_599, &roots), Ok(()));
    assert_eq!(descriptor.service_static_public_key_bytes().unwrap(), [9u8; 32]);
}

#[test]
fn timestamps_sort_by_bytes_as_by_time() {
    let pairs = [
        ("2023-12-31T23:59:59Z", "2024-01-01T00:00:00Z"),
        ("2024-02-28T12:00:00Z", "2024-02-29T00:00:00Z"),
        ("2024-02-29T23:59:59Z", "2024-03-01T00:00:00Z"),
        ("2100-02-28T23:59:59Z", "2100-03-01T00:00:00Z"),
        ("2024-05-17T09:59:59Z", "2024-05-17T10:00:00Z"),
    ];
    for (earlier, later) in pairs {
        assert!(earlier.as_bytes() < later.as_bytes());
        let a = parse_rfc3339_utc_seconds(earlier).unwrap();
        let b = parse_rfc3339_utc_seconds(later).unwrap();
        assert!(a < b, "{earlier} before {later}");
    }
    assert_eq!(
        parse_rfc3339_utc_seconds("2100-03-01T00:00:00Z").unwrap()
            - parse_rfc3339_utc_seconds("2100-02-28T00:00:00Z").unwrap(),
        86_400
    );
}

#[test]
fn timestamp_texts_and_instants_agree_on_order_and_equality() {
    let texts = ["2024-01-01T00:00:00Z", "2024-01-01T00:00:01Z", "2024-12-31T23:59:59Z", "2025-01-01T00:00:00Z"];
    for a in texts {
        for b in texts {
            let x = parse_rfc3339_utc_seconds(a).unwrap();
            let y = parse_rfc3339_utc_seconds(b).unwrap();
            assert_eq!(a < b, x < y);
            assert_eq!(a == b, x == y);
        }
    }
}

use secure_tunnel_core::selector::{
    SelectionSuccess, SelectorStep, TransportAttemptOutcome, TransportSelectionError,
    TransportSelector, connector_for, updated_cache_snapshot,
};
use secure_tunnel_core::session::{CacheDisposition, SecureReadyArtifacts};
use secure_tunnel_core::{
    ApiError, ApiResult, CandidateSource, CarrierKind, FallbackReason, ServiceDescriptor,
    TransportCacheSnapshot, example_service_descriptor,
};

const VALID_NOW: u64 = 1_742_000_000;

/// A connector that reports `carrier`, answers its one connection with
/// `outcome` (the carrier of the transport it returns, or an error), and
/// counts its calls.
struct MockConnector {
    carrier: CarrierKind,
    outcome: ApiResult<CarrierKind>,
    calls: usize,
}

impl MockConnector {
    fn succeeds(carrier: CarrierKind) -> Self {
        Self { carrier, outcome: Ok(carrier), calls: 0 }
    }

    fn fails(carrier: CarrierKind, error: ApiError) -> Self {
        Self { carrier, outcome: Err(error), calls: 0 }
    }

    fn returns_transport(carrier: CarrierKind, returned_transport_carrier: CarrierKind) -> Self {
        Self { carrier, outcome: Ok(returned_transport_carrier), calls: 0 }
    }
}

struct Selected {
    success: SelectionSuccess,
    artifacts: SecureReadyArtifacts,
}

/// Drives a selection the way a driver does: it asks the machine what to do,
/// does it with the mock connectors and evaluator, and hands the outcome back.
fn run_selection(
    selector: TransportSelector,
    descriptor: &ServiceDescriptor,
    cache: Option<&TransportCacheSnapshot>,
    now: u64,
    quic: Option<&mut MockConnector>,
    wss: Option<&mut MockConnector>,
    evaluator: ApiResult<()>,
) -> Result<Selected, TransportSelectionError> {
    let mut connectors = [quic, wss];
    let mut step = selector.start(descriptor, cache, now);
    loop {
        step = match step {
            SelectorStep::Connect(run) => {
                let carrier = run.candidate().target.carrier();
                let slot = match carrier {
                    CarrierKind::Quic => 0,
                    CarrierKind::Wss => 1,
                };
                let reported = connectors[slot].as_ref().map(|c| c.carrier);
                match run.check_connector(reported) {
                    SelectorStep::Connect(run) => {
                        let connector = connectors[slot].as_mut().unwrap();
                        connector.calls += 1;
                        run.on_connected(connector.outcome)
                    }
                    other => other,
                }
            }
            SelectorStep::ReachSecureReady(run) => {
                let carrier = run.candidate().target.carrier();
                run.on_secure_ready(evaluator.map(|()| carrier))
            }
            SelectorStep::Selected(success) => {
                return Ok(Selected {
                    success,
                    artifacts: SecureReadyArtifacts {
                        handshake_hash: Some(vec![0xAA, 0xBB]),
                        channel_binding: Some(vec![0xCC]),
                        service_static_public_key: Some(vec![0xDD; 32]),
                    },
                });
            }
            SelectorStep::Failed(error) => return Err(error),
        };
    }
}

#[test]
fn tests_selector_prefers_quic_on_unknown_network() {
    let descriptor = example_service_descriptor().unwrap();
    let mut quic = MockConnector::succeeds(CarrierKind::Quic);
    let mut wss = MockConnector::succeeds(CarrierKind::Wss);

    let selected = run_selection(
        TransportSelector::new(300),
        &descriptor,
        None,
        1_742_000_000,
        Some(&mut quic),
        Some(&mut wss),
        Ok(()),
    )
    .unwrap();

    assert_eq!(selected.success.report.carrier, CarrierKind::Quic);
    assert_eq!(selected.artifacts.handshake_hash, Some(vec![0xAA, 0xBB]));
    assert_eq!(selected.success.report.cache_state, CacheDisposition::LiveProbe);
    assert_eq!(selected.success.report.fallback_reason, None);
    assert_eq!(
        selected.success.cache_snapshot.last_successful_carrier,
        Some(CarrierKind::Quic)
    );
    assert_eq!(selected.success.cache_snapshot.last_quic_failure, None);
    assert_eq!(selected.success.cache_snapshot.next_quic_probe_after_unix_seconds, None);
    assert_eq!(selected.success.cache_snapshot.highest_descriptor_serial, Some(1));
    assert_eq!(selected.success.attempts.len(), 1);
    assert_eq!(selected.success.attempts[0].outcome, TransportAttemptOutcome::SecureReady);
    assert_eq!(quic.calls, 1);
    assert_eq!(wss.calls, 0);
}

#[test]
fn tests_selector_falls_back_to_wss_after_quic_outer_failure() {
    let descriptor = example_service_descriptor().unwrap();
    let mut quic = MockConnector::fails(
        CarrierKind::Quic,
        ApiError::TransportFallback(FallbackReason::OuterPathFailure),
    );
    let mut wss = MockConnector::succeeds(CarrierKind::Wss);

    let selected = run_selection(
        TransportSelector::new(300),
        &descriptor,
        None,
        1_742_000_000,
        Some(&mut quic),
        Some(&mut wss),
        Ok(()),
    )
    .unwrap();

    assert_eq!(selected.success.report.carrier, CarrierKind::Wss);
    assert_eq!(selected.success.report.cache_state, CacheDisposition::LiveProbe);
    assert_eq!(
        selected.success.report.fallback_reason,
        Some(FallbackReason::OuterPathFailure)
    );
    assert_eq!(
        selected.success.cache_snapshot.last_successful_carrier,
        Some(CarrierKind::Wss)
    );
    assert_eq!(
        selected.success.cache_snapshot.last_quic_failure,
        Some(FallbackReason::OuterPathFailure)
    );
    assert_eq!(
        selected.success.cache_snapshot.next_quic_probe_after_unix_seconds,
        Some(1_742_000_300)
    );
    assert_eq!(selected.success.cache_snapshot.highest_descriptor_serial, Some(1));
    assert_eq!(
        selected.success.attempts[0].outcome,
        TransportAttemptOutcome::Fallback(FallbackReason::OuterPathFailure)
    );
    assert_eq!(selected.success.attempts[1].outcome, TransportAttemptOutcome::SecureReady);
    assert_eq!(quic.calls, 1);
    assert_eq!(wss.calls, 1);
}

#[test]
fn tests_selector_uses_cached_fallback_without_extending_deadline() {
    let descriptor = example_service_descriptor().unwrap();
    let cache = TransportCacheSnapshot {
        last_successful_carrier: Some(CarrierKind::Wss),
        last_quic_failure: Some(FallbackReason::OuterPathFailure),
        next_quic_probe_after_unix_seconds: Some(VALID_NOW + 1),
        highest_descriptor_serial: Some(1),
    };
    let mut quic = MockConnector::succeeds(CarrierKind::Quic);
    let mut wss = MockConnector::succeeds(CarrierKind::Wss);

    let selected = run_selection(
        TransportSelector::new(300),
        &descriptor,
        Some(&cache),
        VALID_NOW,
        Some(&mut quic),
        Some(&mut wss),
        Ok(()),
    )
    .unwrap();

    assert_eq!(selected.success.report.carrier, CarrierKind::Wss);
    assert_eq!(selected.success.report.cache_state, CacheDisposition::CachedFallback);
    assert_eq!(
        selected.success.report.fallback_reason,
        Some(FallbackReason::OuterPathFailure)
    );
    assert_eq!(selected.success.attempts.len(), 1);
    assert_eq!(selected.success.attempts[0].source, CandidateSource::CachedQuicBadNetwork);
    assert_eq!(selected.success.attempts[0].outcome, TransportAttemptOutcome::SecureReady);
    assert_eq!(
        selected.success.cache_snapshot.next_quic_probe_after_unix_seconds,
        Some(VALID_NOW + 1)
    );
    assert_eq!(quic.calls, 0);
    assert_eq!(wss.calls, 1);
}

#[test]
fn tests_selector_reprobes_quic_after_cache_expiry() {
    let descriptor = example_service_descriptor().unwrap();
    let cache = TransportCacheSnapshot {
        last_successful_carrier: Some(CarrierKind::Wss),
        last_quic_failure: Some(FallbackReason::OuterPathFailure),
        next_quic_probe_after_unix_seconds: Some(VALID_NOW),
        highest_descriptor_serial: Some(1),
    };
    let mut quic = MockConnector::succeeds(CarrierKind::Quic);
    let mut wss = MockConnector::succeeds(CarrierKind::Wss);

    let selected = run_selection(
        TransportSelector::new(300),
        &descriptor,
        Some(&cache),
        VALID_NOW,
        Some(&mut quic),
        Some(&mut wss),
        Ok(()),
    )
    .unwrap();

    assert_eq!(selected.success.report.carrier, CarrierKind::Quic);
    assert_eq!(selected.success.report.cache_state, CacheDisposition::Reprobe);
    assert_eq!(selected.success.report.fallback_reason, None);
    assert_eq!(
        selected.success.attempts[0].source,
        CandidateSource::QuicReprobeAfterCachedFallback
    );
    assert_eq!(quic.calls, 1);
    assert_eq!(wss.calls, 0);
}

#[test]
fn tests_selector_does_not_fallback_after_inner_trust_failure() {
    let descriptor = example_service_descriptor().unwrap();
    let mut quic = MockConnector::succeeds(CarrierKind::Quic);
    let mut wss = MockConnector::succeeds(CarrierKind::Wss);

    let result = run_selection(
        TransportSelector::new(300),
        &descriptor,
        None,
        1_742_000_000,
        Some(&mut quic),
        Some(&mut wss),
        Err(ApiError::InnerTrustFailure),
    );
    let Err(error) = result else {
        panic!("selector should stop on inner trust failure");
    };

    assert_eq!(error.cause, ApiError::InnerTrustFailure);
    assert_eq!(error.attempts.len(), 1);
    assert_eq!(
        error.attempts[0].outcome,
        TransportAttemptOutcome::Failed(ApiError::InnerTrustFailure)
    );
    assert_eq!(quic.calls, 1);
    assert_eq!(wss.calls, 0);
}

#[test]
fn tests_selector_surfaces_fallback_reason_when_no_wss_candidate_exists() {
    let mut descriptor = example_service_descriptor().unwrap();
    descriptor.selection_policy.allow_wss_fallback = false;
    descriptor.carriers.wss = None;

    let mut quic = MockConnector::fails(
        CarrierKind::Quic,
        ApiError::TransportFallback(FallbackReason::OuterPathFailure),
    );

    let result = run_selection(
        TransportSelector::new(300),
        &descriptor,
        None,
        1_742_000_000,
        Some(&mut quic),
        None,
        Ok(()),
    );
    let Err(error) = result else {
        panic!("selector should surface exhausted fallback without WSS");
    };

    assert_eq!(
        error.cause,
        ApiError::TransportSelectionExhaustedWithFallback(FallbackReason::OuterPathFailure)
    );
    assert_eq!(
        error.attempts[0].outcome,
        TransportAttemptOutcome::Fallback(FallbackReason::OuterPathFailure)
    );
}

#[test]
fn tests_selector_rejects_transport_with_mismatched_carrier() {
    let descriptor = example_service_descriptor().unwrap();
    let mut quic = MockConnector::returns_transport(CarrierKind::Quic, CarrierKind::Wss);
    let mut wss = MockConnector::succeeds(CarrierKind::Wss);

    let result = run_selection(
        TransportSelector::new(300),
        &descriptor,
        None,
        1_742_000_000,
        Some(&mut quic),
        Some(&mut wss),
        Ok(()),
    );
    let Err(error) = result else {
        panic!("selector should reject a mismatched returned carrier");
    };

    assert_eq!(
        error.cause,
        ApiError::TransportSelectorInvariant(
            "attempt returned a framed transport for the wrong carrier"
        )
    );
    assert_eq!(
        error.attempts[0].outcome,
        TransportAttemptOutcome::Failed(ApiError::TransportSelectorInvariant(
            "attempt returned a framed transport for the wrong carrier"
        ))
    );
    assert_eq!(quic.calls, 1);
    assert_eq!(wss.calls, 0);
}

#[test]
fn selector_reports_missing_connector_without_an_attempt() {
    let descriptor = example_service_descriptor().unwrap();
    let result = run_selection(
        TransportSelector::new(300),
        &descriptor,
        None,
        VALID_NOW,
        None,
        None,
        Ok(()),
    );
    let Err(error) = result else {
        panic!("selector should fail without a QUIC connector");
    };
    assert_eq!(error.cause, ApiError::MissingCarrierConnector(CarrierKind::Quic));
    assert!(error.attempts.is_empty());
}

#[test]
fn selector_refuses_a_fallback_request_from_wss() {
    let descriptor = example_service_descriptor().unwrap();
    let mut quic = MockConnector::fails(
        CarrierKind::Quic,
        ApiError::TransportFallback(FallbackReason::OuterQuicRejected),
    );
    let mut wss = MockConnector::fails(
        CarrierKind::Wss,
        ApiError::TransportFallback(FallbackReason::OuterPathFailure),
    );
    let result = run_selection(
        TransportSelector::new(300),
        &descriptor,
        None,
        VALID_NOW,
        Some(&mut quic),
        Some(&mut wss),
        Ok(()),
    );
    let Err(error) = result else {
        panic!("selector should refuse a WSS fallback request");
    };
    assert_eq!(
        error.cause,
        ApiError::TransportSelectorInvariant("only QUIC attempts may request WSS fallback")
    );
    assert_eq!(error.attempts.len(), 2);
    assert_eq!(
        error.attempts[0].outcome,
        TransportAttemptOutcome::Fallback(FallbackReason::OuterQuicRejected)
    );
}

#[test]
fn selector_start_fails_without_attempts_for_invalid_descriptor() {
    let mut descriptor = example_service_descriptor().unwrap();
    descriptor.descriptor_serial = 0;
    match TransportSelector::new(300).start(&descriptor, None, VALID_NOW) {
        SelectorStep::Failed(error) => {
            assert_eq!(
                error.cause,
                ApiError::InvalidServiceDescriptor("descriptor_serial must not be zero")
            );
            assert!(error.attempts.is_empty());
        }
        _ => panic!("an invalid descriptor yields no plan"),
    }
}

#[test]
fn connector_checks_carrier() {
    assert_eq!(connector_for(CarrierKind::Quic, Some(CarrierKind::Quic)), Ok(CarrierKind::Quic));
    assert_eq!(
        connector_for(CarrierKind::Wss, None),
        Err(ApiError::MissingCarrierConnector(CarrierKind::Wss))
    );
    assert_eq!(
        connector_for(CarrierKind::Wss, Some(CarrierKind::Quic)),
        Err(ApiError::TransportSelectorInvariant(
            "connector carrier does not match the requested target"
        ))
    );
}

#[test]
fn cache_snapshot_keeps_highest_serial_and_saturates_deadline() {
    let previous = TransportCacheSnapshot {
        last_successful_carrier: Some(CarrierKind::Quic),
        last_quic_failure: None,
        next_quic_probe_after_unix_seconds: None,
        highest_descriptor_serial: Some(7),
    };
    let snapshot = updated_cache_snapshot(
        CarrierKind::Wss,
        CacheDisposition::LiveProbe,
        Some(FallbackReason::OuterQuicClosedEarly),
        Some(&previous),
        u64::MAX - 1,
        300,
        3,
    );
    assert_eq!(snapshot.highest_descriptor_serial, Some(7));
    assert_eq!(snapshot.next_quic_probe_after_unix_seconds, Some(u64::MAX));
    assert_eq!(snapshot.last_quic_failure, Some(FallbackReason::OuterQuicClosedEarly));

    let quic = updated_cache_snapshot(
        CarrierKind::Quic,
        CacheDisposition::Reprobe,
        None,
        Some(&snapshot),
        10,
        300,
        9,
    );
    assert_eq!(quic.last_quic_failure, None);
    assert_eq!(quic.next_quic_probe_after_unix_seconds, None);
    assert_eq!(quic.highest_descriptor_serial, Some(9));
}

#[test]
fn selector_selector_prefers_quic_on_unknown_network() {
    let descriptor = example_service_descriptor().unwrap();
    let mut quic = MockConnector::succeeds(CarrierKind::Quic);
    let mut wss = MockConnector::succeeds(CarrierKind::Wss);

    let selected = run_selection(
        TransportSelector::new(300),
        &descriptor,
        None,
        1_742_000_000,
        Some(&mut quic),
        Some(&mut wss),
        Ok(()),
    )
    .unwrap();

    assert_eq!(selected.success.report.carrier, CarrierKind::Quic);
    assert_eq!(selected.artifacts.handshake_hash, Some(vec![0xAA, 0xBB]));
    assert_eq!(selected.success.report.cache_state, CacheDisposition::LiveProbe);
    assert_eq!(selected.success.report.fallback_reason, None);
    assert_eq!(
        selected.success.cache_snapshot.last_successful_carrier,
        Some(CarrierKind::Quic)
    );
    assert_eq!(selected.success.cache_snapshot.last_quic_failure, None);
    assert_eq!(selected.success.cache_snapshot.next_quic_probe_after_unix_seconds, None);
    assert_eq!(selected.success.attempts.len(), 1);
    assert_eq!(selected.success.attempts[0].outcome, TransportAttemptOutcome::SecureReady);
    assert_eq!(quic.calls, 1);
    assert_eq!(wss.calls, 0);
}

#[test]
fn selector_selector_falls_back_to_wss_after_quic_outer_failure() {
    let descriptor = example_service_descriptor().unwrap();
    let mut quic = MockConnector::fails(
        CarrierKind::Quic,
        ApiError::TransportFallback(FallbackReason::OuterPathFailure),
    );
    let mut wss = MockConnector::succeeds(CarrierKind::Wss);

    let selected = run_selection(
        TransportSelector::new(300),
        &descriptor,
        None,
        1_742_000_000,
        Some(&mut quic),
        Some(&mut wss),
        Ok(()),
    )
    .unwrap();

    assert_eq!(selected.success.report.carrier, CarrierKind::Wss);
    assert_eq!(selected.success.report.cache_state, CacheDisposition::LiveProbe);
    assert_eq!(
        selected.success.report.fallback_reason,
        Some(FallbackReason::OuterPathFailure)
    );
    assert_eq!(
        selected.success.cache_snapshot.last_successful_carrier,
        Some(CarrierKind::Wss)
    );
    assert_eq!(
        selected.success.cache_snapshot.last_quic_failure,
        Some(FallbackReason::OuterPathFailure)
    );
    assert_eq!(
        selected.success.cache_snapshot.next_quic_probe_after_unix_seconds,
        Some(1_742_000_300)
    );
    assert_eq!(
        selected.success.attempts[0].outcome,
        TransportAttemptOutcome::Fallback(FallbackReason::OuterPathFailure)
    );
    assert_eq!(selected.success.attempts[1].outcome, TransportAttemptOutcome::SecureReady);
    assert_eq!(quic.calls, 1);
    assert_eq!(wss.calls, 1);
}

#[test]
fn selector_selector_does_not_fallback_after_inner_trust_failure() {
    let descriptor = example_service_descriptor().unwrap();
    let mut quic = MockConnector::succeeds(CarrierKind::Quic);
    let mut wss = MockConnector::succeeds(CarrierKind::Wss);

    let result = run_selection(
        TransportSelector::new(300),
        &descriptor,
        None,
        1_742_000_000,
        Some(&mut quic),
        Some(&mut wss),
        Err(ApiError::InnerTrustFailure),
    );
    let Err(error) = result else {
        panic!("selector should stop on inner trust failure");
    };

    assert_eq!(error.cause, ApiError::InnerTrustFailure);
    assert_eq!(error.attempts.len(), 1);
    assert_eq!(
        error.attempts[0].outcome,
        TransportAttemptOutcome::Failed(ApiError::InnerTrustFailure)
    );
    assert_eq!(quic.calls, 1);
    assert_eq!(wss.calls, 0);
}

#[test]
fn selector_selector_surfaces_fallback_reason_when_no_wss_candidate_exists() {
    let mut descriptor = example_service_descriptor().unwrap();
    descriptor.selection_policy.allow_wss_fallback = false;
    descriptor.carriers.wss = None;
    let mut quic = MockConnector::fails(
        CarrierKind::Quic,
        ApiError::TransportFallback(FallbackReason::OuterPathFailure),
    );

    let result = run_selection(
        TransportSelector::new(300),
        &descriptor,
        None,
        1_742_000_000,
        Some(&mut quic),
        None,
        Ok(()),
    );
    let Err(error) = result else {
        panic!("selector should surface exhausted fallback without WSS");
    };

    assert_eq!(
        error.cause,
        ApiError::TransportSelectionExhaustedWithFallback(FallbackReason::OuterPathFailure)
    );
    assert_eq!(
        error.attempts[0].outcome,
        TransportAttemptOutcome::Fallback(FallbackReason::OuterPathFailure)
    );
}

#[test]
fn selector_selector_rejects_transport_with_mismatched_carrier() {
    let descriptor = example_service_descriptor().unwrap();
    let mut quic = MockConnector::returns_transport(CarrierKind::Quic, CarrierKind::Wss);
    let mut wss = MockConnector::succeeds(CarrierKind::Wss);

    let result = run_selection(
        TransportSelector::new(300),
        &descriptor,
        None,
        1_742_000_000,
        Some(&mut quic),
        Some(&mut wss),
        Ok(()),
    );
    let Err(error) = result else {
        panic!("selector should reject a mismatched returned carrier");
    };

    let invariant =
        ApiError::TransportSelectorInvariant("attempt returned a framed transport for the wrong carrier");
    assert_eq!(error.cause, invariant);
    assert_eq!(error.attempts[0].outcome, TransportAttemptOutcome::Failed(invariant));
    assert_eq!(quic.calls, 1);
    assert_eq!(wss.calls, 0);
}

use base64::Engine;
use base64::engine::general_purpose::STANDARD;

use secure_tunnel_core::noise::{Nk1SecureChannel, normalize_handshake_transport_error};
use secure_tunnel_core::selector::{SelectionSuccess, SelectorStep, TransportSelectionError};
use secure_tunnel_core::session::CacheDisposition;
use secure_tunnel_core::{
    ApiError, ApiResult, CarrierKind, FallbackReason, MAX_RECORD_PAYLOAD_SIZE, NOISE_SUITE_V1,
    QUIC_ALPN_V1, ServiceDescriptor, SnowNk1ClientEvaluator, TransportSelector, TransportTarget,
    WSS_SUBPROTOCOL_V1, example_descriptor_trust_anchors, example_service_descriptor,
};

const NOW: u64 = 1_742_000_000;

#[derive(Clone, Copy)]
enum AuthorizationMode {
    Valid,
    HandshakePayload,
}

/// A scripted `NK1` service behind one carrier.
struct ScriptedResponder {
    handshake: Option<snow::HandshakeState>,
    transport: Option<snow::TransportState>,
    handshake_payload: Vec<u8>,
    responses: Vec<Vec<u8>>,
    received_plaintexts: Vec<Vec<u8>>,
    handshake_completed: bool,
}

impl ScriptedResponder {
    fn answer(&mut self, first: &[u8]) -> ApiResult<Vec<u8>> {
        let mut handshake = self.handshake.take().ok_or(ApiError::TransportClosed)?;
        let mut empty = [];
        handshake
            .read_message(first, &mut empty)
            .map_err(|_| ApiError::InnerNoiseFailure)?;
        let mut outbound = vec![0_u8; MAX_RECORD_PAYLOAD_SIZE];
        let written = handshake
            .write_message(&self.handshake_payload, &mut outbound)
            .map_err(|_| ApiError::InnerNoiseFailure)?;
        outbound.truncate(written);
        self.handshake_completed = handshake.is_handshake_finished();
        self.transport = Some(
            handshake
                .into_transport_mode()
                .map_err(|_| ApiError::InnerNoiseFailure)?,
        );
        Ok(outbound)
    }

    /// Receives one encrypted record and returns the encrypted reply, if any.
    fn exchange(&mut self, record: &[u8]) -> Option<Vec<u8>> {
        let transport = self.transport.as_mut().unwrap();
        let mut plaintext = vec![0_u8; MAX_RECORD_PAYLOAD_SIZE];
        let written = transport.read_message(record, &mut plaintext).unwrap();
        plaintext.truncate(written);
        self.received_plaintexts.push(plaintext);
        if self.responses.is_empty() {
            return None;
        }
        let response = self.responses.remove(0);
        let mut outbound = vec![0_u8; MAX_RECORD_PAYLOAD_SIZE];
        let written = transport.write_message(&response, &mut outbound).unwrap();
        outbound.truncate(written);
        Some(outbound)
    }
}

struct SessionFixture {
    descriptor: ServiceDescriptor,
    responder: ScriptedResponder,
}

fn scripted_session_fixture(mode: AuthorizationMode, responses: Vec<Vec<u8>>) -> SessionFixture {
    let mut descriptor = example_service_descriptor().unwrap();
    let params: snow::params::NoiseParams = NOISE_SUITE_V1.parse().unwrap();
    let keypair = snow::Builder::new(params.clone()).generate_keypair().unwrap();
    descriptor.service_static_public_key = STANDARD.encode(&keypair.public);
    descriptor.resign_with_example_key_for_testing().unwrap();
    let prologue = descriptor.noise_prologue().unwrap();
    let handshake = snow::Builder::new(params)
        .prologue(&prologue)
        .unwrap()
        .local_private_key(&keypair.private)
        .unwrap()
        .build_responder()
        .unwrap();
    let handshake_payload = match mode {
        AuthorizationMode::Valid => Vec::new(),
        AuthorizationMode::HandshakePayload => b"forbidden".to_vec(),
    };
    SessionFixture {
        descriptor,
        responder: ScriptedResponder {
            handshake: Some(handshake),
            transport: None,
            handshake_payload,
            responses,
            received_plaintexts: Vec::new(),
            handshake_completed: false,
        },
    }
}

fn evaluator_for_descriptor(descriptor: &ServiceDescriptor) -> SnowNk1ClientEvaluator {
    SnowNk1ClientEvaluator::with_pinned_trust(
        example_descriptor_trust_anchors(),
        vec![descriptor.service_static_public_key_bytes().unwrap()],
    )
}

#[derive(Debug, Clone, PartialEq, Eq)]
enum ConnectorOutcome {
    Established,
    Fallback(FallbackReason),
    Failed(ApiError),
}

#[derive(Debug, Clone, PartialEq, Eq)]
struct ConnectorObservation {
    carrier: CarrierKind,
    target_summary: String,
    selector_field: &'static str,
    selector_value: String,
    logical_record_channels: usize,
    outcome: ConnectorOutcome,
}

enum ConnectorPlan {
    Ready(Box<ScriptedResponder>),
    Fallback(FallbackReason),
    Failure(ApiError),
}

/// An in-memory carrier connector: it checks the carrier-specific selector
/// of the target, records what it saw, and answers with its plan.
struct InMemoryConnector {
    carrier: CarrierKind,
    plan: Option<ConnectorPlan>,
    responder: Option<Box<ScriptedResponder>>,
    observations: Vec<ConnectorObservation>,
}

impl InMemoryConnector {
    fn success(carrier: CarrierKind, responder: ScriptedResponder) -> Self {
        Self::with_plan(carrier, ConnectorPlan::Ready(Box::new(responder)))
    }

    fn fallback(carrier: CarrierKind, reason: FallbackReason) -> Self {
        Self::with_plan(carrier, ConnectorPlan::Fallback(reason))
    }

    fn failure(carrier: CarrierKind, error: ApiError) -> Self {
        Self::with_plan(carrier, ConnectorPlan::Failure(error))
    }

    fn with_plan(carrier: CarrierKind, plan: ConnectorPlan) -> Self {
        Self { carrier, plan: Some(plan), responder: None, observations: Vec::new() }
    }

    fn call_count(&self) -> usize {
        self.observations.len()
    }

    fn connect(&mut self, target: &TransportTarget) -> ApiResult<CarrierKind> {
        let (target_summary, selector_field, selector_value) = match target {
            TransportTarget::Quic(quic) => (
                format!("quic://{}:{}", quic.connect_host, quic.port),
                "alpn",
                quic.alpn.clone(),
            ),
            TransportTarget::Wss(wss) => {
                (wss.url.clone(), "subprotocol", wss.subprotocol.clone())
            }
        };
        let carrier = self.carrier;
        let observe = |outcome: ConnectorOutcome, channels: usize| ConnectorObservation {
            carrier,
            target_summary: target_summary.clone(),
            selector_field,
            selector_value: selector_value.clone(),
            logical_record_channels: channels,
            outcome,
        };
        let result = match validate_target(target) {
            Err(error) => Err(error),
            Ok(()) => match self.plan.take().unwrap_or(ConnectorPlan::Failure(ApiError::TransportClosed)) {
                ConnectorPlan::Ready(responder) => {
                    self.responder = Some(responder);
                    Ok(carrier)
                }
                ConnectorPlan::Fallback(reason) => Err(ApiError::TransportFallback(reason)),
                ConnectorPlan::Failure(error) => Err(error),
            },
        };
        let observation = match result {
            Ok(_) => observe(ConnectorOutcome::Established, 1),
            Err(ApiError::TransportFallback(reason)) => {
                observe(ConnectorOutcome::Fallback(reason), 0)
            }
            Err(error) => observe(ConnectorOutcome::Failed(error), 0),
        };
        self.observations.push(observation);
        result
    }
}

fn validate_target(target: &TransportTarget) -> ApiResult<()> {
    match target {
        TransportTarget::Quic(quic) => {
            if quic.alpn != QUIC_ALPN_V1 {
                return Err(ApiError::TransportFallback(FallbackReason::OuterQuicRejected));
            }
            if quic.connect_host.is_empty() || quic.port == 0 {
                return Err(ApiError::TransportFallback(FallbackReason::OuterPathFailure));
            }
            Ok(())
        }
        TransportTarget::Wss(wss) => {
            if wss.subprotocol != WSS_SUBPROTOCOL_V1 {
                return Err(ApiError::TransportSelectorInvariant(
                    "WSS subprotocol must match the v1 descriptor value",
                ));
            }
            if !wss.url.starts_with("wss://") {
                return Err(ApiError::TransportSelectorInvariant(
                    "WSS target URL must use the wss:// scheme",
                ));
            }
            Ok(())
        }
    }
}

struct Selected {
    success: SelectionSuccess,
    channel: Nk1SecureChannel,
    carrier: CarrierKind,
}

/// Drives a selection over the two in-memory connectors with the real
/// handshake against each connected carrier's scripted responder.
fn select(
    descriptor: &ServiceDescriptor,
    evaluator: &SnowNk1ClientEvaluator,
    quic: &mut InMemoryConnector,
    wss: &mut InMemoryConnector,
) -> Result<Selected, TransportSelectionError> {
    let mut channel: Option<(CarrierKind, Nk1SecureChannel)> = None;
    let mut step = TransportSelector::new(300).start(descriptor, None, NOW);
    loop {
        step = match step {
            SelectorStep::Connect(run) => {
                let target = run.candidate().target.clone();
                let connector = match target.carrier() {
                    CarrierKind::Quic => &mut *quic,
                    CarrierKind::Wss => &mut *wss,
                };
                match run.check_connector(Some(connector.carrier)) {
                    SelectorStep::Connect(run) => run.on_connected(connector.connect(&target)),
                    other => other,
                }
            }
            SelectorStep::ReachSecureReady(run) => {
                let carrier = run.candidate().target.carrier();
                let connector = match carrier {
                    CarrierKind::Quic => &mut *quic,
                    CarrierKind::Wss => &mut *wss,
                };
                let responder = connector.responder.as_mut().unwrap();
                let outcome = evaluator.start_handshake(descriptor, NOW).and_then(
                    |(handshake, first)| {
                        let answer = responder
                            .answer(&first)
                            .map_err(|error| normalize_handshake_transport_error(carrier, error))?;
                        handshake.finish(&answer)
                    },
                );
                let outcome = outcome.map(|secure| {
                    channel = Some((carrier, secure));
                    carrier
                });
                run.on_secure_ready(outcome)
            }
            SelectorStep::Selected(success) => {
                let (carrier, channel) = channel.unwrap();
                return Ok(Selected { success, channel, carrier });
            }
            SelectorStep::Failed(error) => return Err(error),
        };
    }
}

/// Sends `ping` over the selected channel and returns the decrypted reply.
fn ping(selected: &mut Selected, connector: &mut InMemoryConnector) -> Vec<u8> {
    let sealed = selected.channel.cipher.seal(b"ping").unwrap();
    let responder = connector.responder.as_mut().unwrap();
    let reply = responder.exchange(&sealed).unwrap();
    selected.channel.cipher.open(&reply).unwrap()
}

#[test]
fn quic_binding_reaches_secure_ready_and_transports_application_data() {
    let fixture = scripted_session_fixture(AuthorizationMode::Valid, vec![b"pong".to_vec()]);
    let mut quic = InMemoryConnector::success(CarrierKind::Quic, fixture.responder);
    let mut wss = InMemoryConnector::failure(CarrierKind::Wss, ApiError::TransportClosed);
    let evaluator = evaluator_for_descriptor(&fixture.descriptor);

    let mut selected =
        select(&fixture.descriptor, &evaluator, &mut quic, &mut wss).expect("quic should succeed");

    assert_eq!(selected.success.report.carrier, CarrierKind::Quic);
    assert_eq!(selected.carrier, CarrierKind::Quic);
    assert_eq!(selected.success.report.cache_state, CacheDisposition::LiveProbe);
    assert_eq!(selected.success.report.fallback_reason, None);
    assert_eq!(quic.call_count(), 1);
    assert_eq!(wss.call_count(), 0);

    let observations = quic.observations.clone();
    assert_eq!(observations.len(), 1);
    assert_eq!(observations[0].carrier, CarrierKind::Quic);
    assert_eq!(observations[0].target_summary, "quic://api.example.com:443");
    assert_eq!(observations[0].selector_field, "alpn");
    assert_eq!(observations[0].selector_value, QUIC_ALPN_V1);
    assert_eq!(observations[0].logical_record_channels, 1);
    assert_eq!(observations[0].outcome, ConnectorOutcome::Established);

    assert_eq!(ping(&mut selected, &mut quic), b"pong".to_vec());
    let responder = quic.responder.as_ref().unwrap();
    assert_eq!(responder.received_plaintexts, vec![b"ping".to_vec()]);
    assert!(responder.handshake_completed);
}

#[test]
fn quic_binding_falls_back_to_wss_when_outer_path_fails() {
    let mut quic = InMemoryConnector::fallback(CarrierKind::Quic, FallbackReason::OuterPathFailure);
    let fixture = scripted_session_fixture(AuthorizationMode::Valid, vec![b"pong".to_vec()]);
    let mut wss = InMemoryConnector::success(CarrierKind::Wss, fixture.responder);
    let evaluator = evaluator_for_descriptor(&fixture.descriptor);

    let mut selected = select(&fixture.descriptor, &evaluator, &mut quic, &mut wss)
        .expect("wss fallback should succeed");

    assert_eq!(selected.success.report.carrier, CarrierKind::Wss);
    assert_eq!(selected.success.report.cache_state, CacheDisposition::LiveProbe);
    assert_eq!(
        selected.success.report.fallback_reason,
        Some(FallbackReason::OuterPathFailure)
    );
    assert_eq!(quic.call_count(), 1);
    assert_eq!(wss.call_count(), 1);

    assert_eq!(quic.observations[0].carrier, CarrierKind::Quic);
    assert_eq!(quic.observations[0].target_summary, "quic://api.example.com:443");
    assert_eq!(quic.observations[0].selector_field, "alpn");
    assert_eq!(quic.observations[0].selector_value, QUIC_ALPN_V1);
    assert_eq!(
        quic.observations[0].outcome,
        ConnectorOutcome::Fallback(FallbackReason::OuterPathFailure)
    );

    assert_eq!(wss.observations.len(), 1);
    assert_eq!(wss.observations[0].carrier, CarrierKind::Wss);
    assert_eq!(wss.observations[0].target_summary, "wss://api.example.com/tunnel/v1");
    assert_eq!(wss.observations[0].selector_field, "subprotocol");
    assert_eq!(wss.observations[0].selector_value, WSS_SUBPROTOCOL_V1);
    assert_eq!(wss.observations[0].logical_record_channels, 1);
    assert_eq!(wss.observations[0].outcome, ConnectorOutcome::Established);

    assert_eq!(ping(&mut selected, &mut wss), b"pong".to_vec());
    let responder = wss.responder.as_ref().unwrap();
    assert_eq!(responder.received_plaintexts, vec![b"ping".to_vec()]);
    assert!(responder.handshake_completed);
}

#[test]
fn quic_binding_rejects_descriptor_with_alpn_mismatch() {
    let mut quic_fixture = scripted_session_fixture(AuthorizationMode::Valid, Vec::new());
    quic_fixture.descriptor.carriers.quic.as_mut().expect("quic target").alpn =
        "bogus-alpn".to_owned();
    let mut quic = InMemoryConnector::success(CarrierKind::Quic, quic_fixture.responder);
    let wss_fixture = scripted_session_fixture(AuthorizationMode::Valid, vec![b"pong".to_vec()]);
    let mut wss = InMemoryConnector::success(CarrierKind::Wss, wss_fixture.responder);
    let evaluator = evaluator_for_descriptor(&quic_fixture.descriptor);

    let result = select(&quic_fixture.descriptor, &evaluator, &mut quic, &mut wss);
    let Err(error) = result else {
        panic!("selector should reject a descriptor with an invalid QUIC ALPN");
    };

    assert_eq!(
        error.cause,
        ApiError::InvalidServiceDescriptor("QUIC ALPN must match the v1 descriptor value")
    );
    assert_eq!(quic.call_count(), 0);
    assert_eq!(wss.call_count(), 0);
}

#[test]
fn wss_binding_records_malformed_target_without_falling_back() {
    let mut fixture = scripted_session_fixture(AuthorizationMode::Valid, Vec::new());
    fixture.descriptor.carriers.wss.as_mut().expect("wss target").subprotocol =
        "bogus-subprotocol".to_owned();
    let mut quic = InMemoryConnector::fallback(CarrierKind::Quic, FallbackReason::OuterPathFailure);
    let mut wss = InMemoryConnector::success(CarrierKind::Wss, fixture.responder);
    let evaluator = evaluator_for_descriptor(&fixture.descriptor);

    let result = select(&fixture.descriptor, &evaluator, &mut quic, &mut wss);
    let Err(error) = result else {
        panic!("selector should stop on a malformed WSS target");
    };

    assert_eq!(
        error.cause,
        ApiError::InvalidServiceDescriptor("WSS subprotocol must match the v1 descriptor value")
    );
    assert_eq!(quic.call_count(), 0);
    assert_eq!(wss.call_count(), 0);
}

#[test]
fn quic_binding_stops_on_inner_trust_failure_without_trying_wss() {
    let fixture = scripted_session_fixture(AuthorizationMode::HandshakePayload, Vec::new());
    let mut quic = InMemoryConnector::success(CarrierKind::Quic, fixture.responder);
    let mut wss = InMemoryConnector::failure(CarrierKind::Wss, ApiError::TransportClosed);
    let evaluator = evaluator_for_descriptor(&fixture.descriptor);

    let result = select(&fixture.descriptor, &evaluator, &mut quic, &mut wss);
    let Err(error) = result else {
        panic!("selector should stop on inner trust failure");
    };

    assert_eq!(error.cause, ApiError::InnerTrustFailure);
    assert_eq!(quic.call_count(), 1);
    assert_eq!(wss.call_count(), 0);
    assert_eq!(quic.observations[0].outcome, ConnectorOutcome::Established);
}

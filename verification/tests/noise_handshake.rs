use base64::Engine;
use base64::engine::general_purpose::STANDARD;

use secure_tunnel_core::noise::{
    Nk1SecureChannel, check_handshake_completion, decode_close_message,
    normalize_handshake_transport_error,
};
use secure_tunnel_core::selector::{SelectionSuccess, SelectorStep, TransportSelectionError};
use secure_tunnel_core::{
    ApiError, ApiResult, CarrierKind, CloseDirective, MAX_APPLICATION_PLAINTEXT_SIZE,
    MAX_RECORD_PAYLOAD_SIZE, NOISE_SUITE_V1, ServiceDescriptor, SnowNk1ClientEvaluator,
    TransportSelector, example_descriptor_trust_anchors, example_service_descriptor,
};

const NOW: u64 = 1_742_000_000;

#[derive(Clone, Copy)]
enum AuthorizationMode {
    Valid,
    WrongServiceStaticKey,
    HandshakePayload,
}

/// The service side of a handshake, answering with `snow` directly.
struct Responder {
    handshake: Option<snow::HandshakeState>,
    transport: Option<snow::TransportState>,
    handshake_payload: Vec<u8>,
    handshake_completed: bool,
}

impl Responder {
    /// Reads the initiator's first record and writes the answer.
    fn answer(&mut self, first: &[u8]) -> ApiResult<Vec<u8>> {
        let mut handshake = self.handshake.take().ok_or(ApiError::TransportClosed)?;
        let mut empty = [];
        handshake
            .read_message(first, &mut empty)
            .map_err(|_| ApiError::InnerNoiseFailure)?;
        let mut outbound = vec![0_u8; MAX_RECORD_PAYLOAD_SIZE];
        let written = handshake
            .write_message(&self.handshake_payload, &mut outbound)
            .map_err(|_| ApiError::InnerNoiseFailure)?;
        outbound.truncate(written);
        self.handshake_completed = handshake.is_handshake_finished();
        self.transport = Some(
            handshake
                .into_transport_mode()
                .map_err(|_| ApiError::InnerNoiseFailure)?,
        );
        Ok(outbound)
    }

    fn open(&mut self, record: &[u8]) -> Vec<u8> {
        let mut plaintext = vec![0_u8; MAX_RECORD_PAYLOAD_SIZE];
        let written = self
            .transport
            .as_mut()
            .unwrap()
            .read_message(record, &mut plaintext)
            .unwrap();
        plaintext.truncate(written);
        plaintext
    }

    fn seal(&mut self, plaintext: &[u8]) -> Vec<u8> {
        let mut outbound = vec![0_u8; MAX_RECORD_PAYLOAD_SIZE];
        let written = self
            .transport
            .as_mut()
            .unwrap()
            .write_message(plaintext, &mut outbound)
            .unwrap();
        outbound.truncate(written);
        outbound
    }
}

fn scripted_responder_fixture(mode: AuthorizationMode) -> (ServiceDescriptor, Responder) {
    let mut descriptor = example_service_descriptor().unwrap();
    let params: snow::params::NoiseParams = NOISE_SUITE_V1.parse().unwrap();
    let builder = snow::Builder::new(params.clone());
    let keypair = builder.generate_keypair().unwrap();
    descriptor.service_static_public_key = STANDARD.encode(&keypair.public);
    if matches!(mode, AuthorizationMode::WrongServiceStaticKey) {
        descriptor.service_static_public_key = STANDARD.encode([8_u8; 32]);
    }
    descriptor.resign_with_example_key_for_testing().unwrap();
    let prologue = descriptor.noise_prologue().unwrap();
    let responder = snow::Builder::new(params)
        .prologue(&prologue)
        .unwrap()
        .local_private_key(&keypair.private)
        .unwrap()
        .build_responder()
        .unwrap();
    let handshake_payload = if matches!(mode, AuthorizationMode::HandshakePayload) {
        b"forbidden".to_vec()
    } else {
        Vec::new()
    };
    (
        descriptor,
        Responder {
            handshake: Some(responder),
            transport: None,
            handshake_payload,
            handshake_completed: false,
        },
    )
}

fn evaluator_for_descriptor(descriptor: &ServiceDescriptor) -> SnowNk1ClientEvaluator {
    SnowNk1ClientEvaluator::with_pinned_trust(
        example_descriptor_trust_anchors(),
        vec![descriptor.service_static_public_key_bytes().unwrap()],
    )
}

/// Runs the handshake against the responder the way a driver does: the
/// responder's failure to read the first record surfaces as the error the
/// record exchange reports on `carrier`.
fn reach_secure_ready(
    evaluator: &SnowNk1ClientEvaluator,
    descriptor: &ServiceDescriptor,
    carrier: CarrierKind,
    responder: &mut Responder,
) -> ApiResult<Nk1SecureChannel> {
    let (handshake, first) = evaluator.start_handshake(descriptor, NOW)?;
    let answer = responder
        .answer(&first)
        .map_err(|error| normalize_handshake_transport_error(carrier, error))?;
    handshake.finish(&answer)
}

#[test]
fn secure_ready_success_exposes_handshake_hash() {
    let (descriptor, mut responder) = scripted_responder_fixture(AuthorizationMode::Valid);
    let evaluator = evaluator_for_descriptor(&descriptor);

    let mut channel =
        reach_secure_ready(&evaluator, &descriptor, CarrierKind::Quic, &mut responder).unwrap();

    let handshake_hash = channel.artifacts.handshake_hash.clone().unwrap();
    assert!(!handshake_hash.is_empty());
    assert_eq!(handshake_hash.len(), 32);
    assert_eq!(channel.artifacts.channel_binding, Some(handshake_hash));
    assert!(channel.artifacts.service_static_public_key.is_some());

    let sealed = channel.cipher.seal(b"ping").unwrap();
    assert_eq!(responder.open(&sealed), b"ping".to_vec());
    let reply = responder.seal(b"pong");
    assert_eq!(channel.cipher.open(&reply).unwrap(), b"pong".to_vec());
    assert!(responder.handshake_completed);
}

#[test]
fn secure_ready_rejects_wrong_service_static_public_key() {
    let (descriptor, mut responder) =
        scripted_responder_fixture(AuthorizationMode::WrongServiceStaticKey);
    let evaluator = evaluator_for_descriptor(&descriptor);

    let Err(error) = reach_secure_ready(&evaluator, &descriptor, CarrierKind::Quic, &mut responder)
    else {
        panic!("secure-ready should fail on the wrong service static public key");
    };

    assert_eq!(error, ApiError::InnerNoiseFailure);
}

#[test]
fn secure_ready_rejects_descriptor_with_wrong_noise_suite() {
    let (mut descriptor, mut responder) = scripted_responder_fixture(AuthorizationMode::Valid);
    descriptor.noise_suite = "Noise_NN_25519_ChaChaPoly_BLAKE2s".to_owned();
    let evaluator = evaluator_for_descriptor(&descriptor);

    let Err(error) = reach_secure_ready(&evaluator, &descriptor, CarrierKind::Quic, &mut responder)
    else {
        panic!("secure-ready should fail when the descriptor noise suite is invalid");
    };

    assert_eq!(
        error,
        ApiError::InvalidServiceDescriptor("noise_suite must match the v1 Noise suite identifier")
    );
}

/// How a carrier's secure-ready attempt goes in the selector tests below.
enum Peer {
    Responder(Responder),
    ClosesDuringHandshake,
}

/// Drives a selection with the real handshake: both connectors succeed and
/// count their calls; `Secure Ready` is reached against each carrier's peer.
fn select_with_real_evaluator(
    descriptor: &ServiceDescriptor,
    evaluator: &SnowNk1ClientEvaluator,
    mut quic: Peer,
    mut wss: Peer,
    calls: &mut [usize; 2],
) -> Result<SelectionSuccess, TransportSelectionError> {
    let mut step = TransportSelector::new(300).start(descriptor, None, NOW);
    loop {
        step = match step {
            SelectorStep::Connect(run) => {
                let carrier = run.candidate().target.carrier();
                match run.check_connector(Some(carrier)) {
                    SelectorStep::Connect(run) => {
                        calls[usize::from(carrier == CarrierKind::Wss)] += 1;
                        run.on_connected(Ok(carrier))
                    }
                    other => other,
                }
            }
            SelectorStep::ReachSecureReady(run) => {
                let carrier = run.candidate().target.carrier();
                let peer = if carrier == CarrierKind::Quic { &mut quic } else { &mut wss };
                let outcome = match peer {
                    Peer::Responder(responder) => {
                        reach_secure_ready(evaluator, descriptor, carrier, responder)
                            .map(|_| carrier)
                    }
                    Peer::ClosesDuringHandshake => evaluator
                        .start_handshake(descriptor, NOW)
                        .and_then(|_| {
                            Err(normalize_handshake_transport_error(
                                carrier,
                                ApiError::TransportClosed,
                            ))
                        }),
                };
                run.on_secure_ready(outcome)
            }
            SelectorStep::Selected(success) => return Ok(success),
            SelectorStep::Failed(error) => return Err(error),
        };
    }
}

#[test]
fn selector_does_not_fallback_on_inner_trust_failure_with_real_evaluator() {
    let (descriptor, quic_responder) =
        scripted_responder_fixture(AuthorizationMode::HandshakePayload);
    let (_, wss_responder) = scripted_responder_fixture(AuthorizationMode::Valid);
    let evaluator = evaluator_for_descriptor(&descriptor);
    let mut calls = [0_usize; 2];

    let result = select_with_real_evaluator(
        &descriptor,
        &evaluator,
        Peer::Responder(quic_responder),
        Peer::Responder(wss_responder),
        &mut calls,
    );
    let Err(error) = result else {
        panic!("selector should stop on inner trust failure");
    };

    assert_eq!(error.cause, ApiError::InnerTrustFailure);
    assert_eq!(calls, [1, 0]);
}

#[test]
fn selector_falls_back_on_quic_transport_closed_during_secure_ready_handshake() {
    let (descriptor, wss_responder) = scripted_responder_fixture(AuthorizationMode::Valid);
    let evaluator = evaluator_for_descriptor(&descriptor);
    let mut calls = [0_usize; 2];

    let selected = select_with_real_evaluator(
        &descriptor,
        &evaluator,
        Peer::ClosesDuringHandshake,
        Peer::Responder(wss_responder),
        &mut calls,
    )
    .unwrap();

    assert_eq!(selected.report.carrier, CarrierKind::Wss);
    assert_eq!(calls, [1, 1]);
}

#[test]
fn noise_transport_close_sends_encrypted_close() {
    let (descriptor, mut responder) = scripted_responder_fixture(AuthorizationMode::Valid);
    let evaluator = evaluator_for_descriptor(&descriptor);
    let mut channel =
        reach_secure_ready(&evaluator, &descriptor, CarrierKind::Quic, &mut responder).unwrap();
    let directive = CloseDirective { code: 7, drain: true };

    let sealed = channel.cipher.seal_close(directive).unwrap();

    assert_eq!(decode_close_message(&responder.open(&sealed)), Some(directive));
}

#[test]
fn record_cipher_refuses_oversized_plaintext() {
    let (descriptor, mut responder) = scripted_responder_fixture(AuthorizationMode::Valid);
    let evaluator = evaluator_for_descriptor(&descriptor);
    let mut channel =
        reach_secure_ready(&evaluator, &descriptor, CarrierKind::Quic, &mut responder).unwrap();
    let oversized = vec![0_u8; MAX_APPLICATION_PLAINTEXT_SIZE + 1];

    assert_eq!(
        channel.cipher.seal(&oversized),
        Err(ApiError::RecordTooLarge {
            actual: MAX_APPLICATION_PLAINTEXT_SIZE + 1,
            max: MAX_APPLICATION_PLAINTEXT_SIZE,
        })
    );
    let largest = vec![7_u8; MAX_APPLICATION_PLAINTEXT_SIZE];
    let sealed = channel.cipher.seal(&largest).unwrap();
    assert_eq!(sealed.len(), MAX_RECORD_PAYLOAD_SIZE);
    assert_eq!(responder.open(&sealed), largest);
}

#[test]
fn record_cipher_rejects_tampered_record() {
    let (descriptor, mut responder) = scripted_responder_fixture(AuthorizationMode::Valid);
    let evaluator = evaluator_for_descriptor(&descriptor);
    let mut channel =
        reach_secure_ready(&evaluator, &descriptor, CarrierKind::Quic, &mut responder).unwrap();
    let mut reply = responder.seal(b"pong");
    reply[0] ^= 1;

    assert_eq!(channel.cipher.open(&reply), Err(ApiError::InnerNoiseFailure));
}

#[test]
fn first_handshake_record_is_not_the_prologue() {
    let (descriptor, _) = scripted_responder_fixture(AuthorizationMode::Valid);
    let evaluator = evaluator_for_descriptor(&descriptor);
    let (_, first) = evaluator.start_handshake(&descriptor, NOW).unwrap();

    assert_eq!(first.len(), 32);
    assert_ne!(first, descriptor.noise_prologue().unwrap());
}

#[test]
fn handshake_completion_checks_payload_then_finish_then_key() {
    let pinned = [9_u8; 32];
    let other = [8_u8; 32];
    assert_eq!(check_handshake_completion(0, true, Some(&pinned), &pinned), Ok(()));
    assert_eq!(
        check_handshake_completion(3, true, Some(&pinned), &pinned),
        Err(ApiError::InnerTrustFailure)
    );
    assert_eq!(
        check_handshake_completion(3, false, None, &pinned),
        Err(ApiError::InnerTrustFailure)
    );
    assert_eq!(
        check_handshake_completion(0, false, Some(&pinned), &pinned),
        Err(ApiError::InnerNoiseFailure)
    );
    assert_eq!(
        check_handshake_completion(0, true, Some(&other), &pinned),
        Err(ApiError::InnerNoiseFailure)
    );
    assert_eq!(
        check_handshake_completion(0, true, Some(&pinned[..31]), &pinned),
        Err(ApiError::InnerNoiseFailure)
    );
    assert_eq!(check_handshake_completion(0, true, None, &pinned), Err(ApiError::InnerNoiseFailure));
}

#[test]
fn default_evaluator_pins_example_roots_and_clones() {
    let evaluator = SnowNk1ClientEvaluator::default();
    assert_eq!(evaluator.trusted_roots(), &example_descriptor_trust_anchors());
    let copy = evaluator.clone();
    assert_eq!(copy.trusted_roots(), evaluator.trusted_roots());
    let descriptor = example_service_descriptor().unwrap();
    assert!(copy.prepare_handshake(&descriptor, NOW).is_ok());
}

use base64::Engine;
use base64::engine::general_purpose::STANDARD;
use ed25519_dalek::{Signer, SigningKey};

use secure_tunnel_core::noise::Nk1SecureChannel;
use secure_tunnel_core::service_fixture::{LocalServiceFixture, noise_params};
use secure_tunnel_core::service_responder::{
    ACCOUNT_CONTEXT_HASH, CHALLENGE_EXPIRES_AT_UNIX_MS, DEVICE_CHALLENGE, NoiseServiceResponder,
    SMOKE_PING, SMOKE_PONG, decode_device_auth_finish, encode_quic_record, is_close_message,
};
use secure_tunnel_core::{
    AccountAuthMode, AccountAuthRequest, AccountAuthResult, AccountFreshness, ApiError,
    DeviceAuthStart, DeviceChallenge, DeviceProofFinish, DeviceProofInput, DeviceProofPurpose,
    DeviceResult, DeviceState, NOISE_SUITE_V1, ServiceDescriptor, SnowNk1ClientEvaluator,
    example_descriptor_trust_anchors, example_service_descriptor,
};

const NOW: u64 = 1_742_000_000;
const DEVICE_KEY_ID: &str = "device-ed25519-smoke";
const DEVICE_KEY_SEED: [u8; 32] = [11_u8; 32];

struct Session {
    descriptor: ServiceDescriptor,
    responder: NoiseServiceResponder,
    channel: Nk1SecureChannel,
}

fn device_key() -> SigningKey {
    SigningKey::from_bytes(&DEVICE_KEY_SEED)
}

/// A service fixture and a client that reached `Secure Ready` with it.
fn session() -> Session {
    let mut descriptor = example_service_descriptor().unwrap();
    let params: snow::params::NoiseParams = NOISE_SUITE_V1.parse().unwrap();
    let keypair = snow::Builder::new(params).generate_keypair().unwrap();
    descriptor.service_static_public_key = STANDARD.encode(&keypair.public);
    descriptor.resign_with_example_key_for_testing().unwrap();
    let mut responder = NoiseServiceResponder::new(
        descriptor.clone(),
        &keypair.private,
        device_key().verifying_key().to_bytes(),
    )
    .unwrap();
    let evaluator = SnowNk1ClientEvaluator::with_pinned_trust(
        example_descriptor_trust_anchors(),
        vec![descriptor.service_static_public_key_bytes().unwrap()],
    );
    let (handshake, first) = evaluator.start_handshake(&descriptor, NOW).unwrap();
    let answer = responder.process_record(&first).unwrap().unwrap();
    let channel = handshake.finish(&answer).unwrap();
    Session { descriptor, responder, channel }
}

impl Session {
    /// Sends one plaintext record and returns the decrypted answer.
    fn exchange(&mut self, plaintext: &[u8]) -> Result<Option<Vec<u8>>, ApiError> {
        let sealed = self.channel.cipher.seal(plaintext).unwrap();
        let answer = self.responder.process_record(&sealed)?;
        Ok(answer.map(|record| self.channel.cipher.open(&record).unwrap()))
    }

    fn authenticate_account(&mut self) {
        let request = AccountAuthRequest {
            account_id: "acct-smoke".to_owned(),
            credential_payload: b"token".to_vec(),
            mode: AccountAuthMode::Fresh,
        };
        let answer = self.exchange(&request.encode().unwrap()).unwrap().unwrap();
        let result = AccountAuthResult::decode(&answer).unwrap();
        assert_eq!(result.account_id, "acct-smoke");
        assert_eq!(result.session_context_id, "session-smoke");
        assert_eq!(result.account_context_hash, ACCOUNT_CONTEXT_HASH);
        assert_eq!(result.freshness, AccountFreshness::Fresh);
    }

    fn start_device_auth(&mut self) -> DeviceChallenge {
        let start = DeviceAuthStart { device_key_id: DEVICE_KEY_ID.to_owned() };
        let answer = self.exchange(&start.encode().unwrap()).unwrap().unwrap();
        DeviceChallenge::decode_auth(&answer).unwrap()
    }

    fn signed_finish(&self, challenge: &DeviceChallenge) -> Vec<u8> {
        let handshake_hash: [u8; 32] = self
            .channel
            .artifacts
            .handshake_hash
            .clone()
            .unwrap()
            .as_slice()
            .try_into()
            .unwrap();
        let input = DeviceProofInput {
            noise_handshake_hash: handshake_hash,
            server_challenge: challenge.server_challenge,
            context: self.descriptor.inner_channel_context().unwrap(),
            account_context_hash: ACCOUNT_CONTEXT_HASH,
            device_key_id: DEVICE_KEY_ID.to_owned(),
            purpose: DeviceProofPurpose::KnownDeviceReauth,
            expires_at_unix_ms: challenge.expires_at_unix_ms,
        };
        let signature = device_key().sign(&input.canonical_bytes().unwrap()).to_bytes();
        DeviceProofFinish {
            device_key_id: DEVICE_KEY_ID.to_owned(),
            server_challenge: challenge.server_challenge,
            expires_at_unix_ms: challenge.expires_at_unix_ms,
            signature,
            candidate_device_public_key: None,
        }
        .encode_auth()
        .unwrap()
    }
}

#[test]
fn responder_answers_ping_with_pong() {
    let mut session = session();
    assert_eq!(session.exchange(&SMOKE_PING).unwrap(), Some(SMOKE_PONG.to_vec()));
    assert_eq!(&SMOKE_PING, b"smoke-ping");
    assert_eq!(&SMOKE_PONG, b"smoke-pong");
}

#[test]
fn responder_authenticates_account_then_known_device() {
    let mut session = session();
    session.authenticate_account();
    let challenge = session.start_device_auth();
    assert_eq!(challenge.server_challenge, DEVICE_CHALLENGE);
    assert_eq!(challenge.expires_at_unix_ms, CHALLENGE_EXPIRES_AT_UNIX_MS);

    let finish = session.signed_finish(&challenge);
    let answer = session.exchange(&finish).unwrap().unwrap();

    let result = DeviceResult::decode_auth(&answer).unwrap();
    assert_eq!(result.device_key_id, DEVICE_KEY_ID);
    assert_eq!(result.state, DeviceState::Active);
}

#[test]
fn responder_refuses_replayed_device_finish() {
    let mut session = session();
    session.authenticate_account();
    let challenge = session.start_device_auth();
    let finish = session.signed_finish(&challenge);
    session.exchange(&finish).unwrap().unwrap();

    let sealed = session.channel.cipher.seal(&finish).unwrap();
    assert_eq!(
        session.responder.process_record(&sealed),
        Err(ApiError::PostHandshakeAuthFailure)
    );
    let sealed = session.channel.cipher.seal(&SMOKE_PING).unwrap();
    assert_eq!(session.responder.process_record(&sealed), Err(ApiError::TransportClosed));
}

#[test]
fn responder_refuses_device_finish_without_start() {
    let mut session = session();
    session.authenticate_account();
    let challenge = DeviceChallenge {
        server_challenge: DEVICE_CHALLENGE,
        expires_at_unix_ms: CHALLENGE_EXPIRES_AT_UNIX_MS,
    };
    let finish = session.signed_finish(&challenge);
    assert_eq!(session.exchange(&finish), Err(ApiError::PostHandshakeAuthFailure));
}

#[test]
fn responder_refuses_device_finish_without_account() {
    let mut session = session();
    let challenge = session.start_device_auth();
    let finish = session.signed_finish(&challenge);
    assert_eq!(session.exchange(&finish), Err(ApiError::PostHandshakeAuthFailure));
}

#[test]
fn responder_refuses_device_finish_with_bad_signature() {
    let mut session = session();
    session.authenticate_account();
    let challenge = session.start_device_auth();
    let mut finish = session.signed_finish(&challenge);
    let last = finish.len() - 1;
    finish[last] ^= 1;
    assert_eq!(session.exchange(&finish), Err(ApiError::PostHandshakeAuthFailure));
}

#[test]
fn responder_answers_close_with_nothing_and_unknown_with_failure() {
    let mut session = session();
    assert_eq!(session.exchange(&[1, 0, 7, 1]).unwrap(), None);
    assert_eq!(session.exchange(b"hello"), Err(ApiError::PostHandshakeAuthFailure));
}

#[test]
fn responder_without_session_reports_transport_closed() {
    let mut session = session();
    let sealed = session.channel.cipher.seal(b"garbage").unwrap();
    let mut tampered = sealed.clone();
    tampered[0] ^= 1;
    assert_eq!(session.responder.process_record(&tampered), Err(ApiError::InnerNoiseFailure));
    assert_eq!(session.responder.process_record(&sealed), Err(ApiError::TransportClosed));
}

#[test]
fn device_finish_decodes_its_fields() {
    let finish = DeviceProofFinish {
        device_key_id: "d1".to_owned(),
        server_challenge: [2_u8; 32],
        expires_at_unix_ms: 0x0102_0304_0506_0708,
        signature: [3_u8; 64],
        candidate_device_public_key: None,
    };
    let decoded = decode_device_auth_finish(&finish.encode_auth().unwrap()).unwrap();
    assert_eq!(decoded, finish);
    assert_eq!(
        decode_device_auth_finish(&finish.encode_enrollment().unwrap()),
        Err(ApiError::PostHandshakeAuthFailure)
    );
}

#[test]
fn close_message_is_four_bytes_of_close_type() {
    assert!(is_close_message(&[1, 0, 0, 0]));
    assert!(!is_close_message(&[2, 0, 0, 0]));
    assert!(!is_close_message(&[1, 0, 0]));
}

#[test]
fn fixture_points_descriptor_at_loopback_ports() {
    let mut fixture = LocalServiceFixture::new(device_key().verifying_key().to_bytes()).unwrap();
    let descriptor = fixture.descriptor_for_ports(4433, 8443).unwrap();

    let quic = descriptor.carriers.quic.as_ref().unwrap();
    assert_eq!(quic.connect_host, "127.0.0.1");
    assert_eq!(quic.port, 4433);
    assert_eq!(quic.alpn, "secure-tunnel-v1");
    assert_eq!(quic.sni_override, None);
    let wss = descriptor.carriers.wss.as_ref().unwrap();
    assert_eq!(wss.url, "wss://127.0.0.1:8443/tunnel");
    assert_eq!(wss.subprotocol, "secure-tunnel-v1");
    assert_eq!(wss.authority_override, None);
    assert_eq!(descriptor.validate(), Ok(()));
    assert_eq!(descriptor.authorize_at(NOW, &example_descriptor_trust_anchors()), Ok(()));
    assert_eq!(
        descriptor.service_static_public_key_bytes().unwrap(),
        fixture.server_public_key()
    );
}

#[test]
fn fixture_responder_completes_handshake_with_pinned_key() {
    let mut fixture = LocalServiceFixture::new(device_key().verifying_key().to_bytes()).unwrap();
    let descriptor = fixture.descriptor_for_ports(1, 65535).unwrap();
    assert_eq!(descriptor.carriers.wss.as_ref().unwrap().url, "wss://127.0.0.1:65535/tunnel");
    let mut responder = fixture.responder().unwrap();
    let evaluator = SnowNk1ClientEvaluator::with_pinned_trust(
        example_descriptor_trust_anchors(),
        vec![fixture.server_public_key()],
    );
    let (handshake, first) = evaluator.start_handshake(&descriptor, NOW).unwrap();
    let answer = responder.process_record(&first).unwrap().unwrap();
    let mut channel = handshake.finish(&answer).unwrap();
    let sealed = channel.cipher.seal(&SMOKE_PING).unwrap();
    let reply = responder.process_record(&sealed).unwrap().unwrap();
    assert_eq!(channel.cipher.open(&reply).unwrap(), SMOKE_PONG.to_vec());
}

#[test]
fn fixture_repoints_ports_on_each_call() {
    let mut fixture = LocalServiceFixture::new([1_u8; 32]).unwrap();
    assert!(noise_params().is_ok());
    let first = fixture.descriptor_for_ports(1, 2).unwrap();
    let second = fixture.descriptor_for_ports(3, 4).unwrap();
    assert_eq!(first.carriers.quic.as_ref().unwrap().port, 1);
    assert_eq!(second.carriers.quic.as_ref().unwrap().port, 3);
    assert_eq!(second.carriers.wss.as_ref().unwrap().url, "wss://127.0.0.1:4/tunnel");
    assert_eq!(first.descriptor_serial, second.descriptor_serial);
    assert_ne!(first.signed_descriptor_hash, second.signed_descriptor_hash);
}

#[test]
fn quic_records_are_length_prefixed() {
    assert_eq!(encode_quic_record(b"abc"), Ok(vec![0, 3, b'a', b'b', b'c']));
    assert_eq!(encode_quic_record(&[]), Ok(vec![0, 0]));
    let largest = vec![1_u8; 65_535];
    assert_eq!(encode_quic_record(&largest).unwrap().len(), 65_537);
    assert_eq!(
        encode_quic_record(&vec![1_u8; 65_536]),
        Err(ApiError::RecordTooLarge { actual: 65_536, max: 65_535 })
    );
}

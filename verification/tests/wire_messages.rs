use secure_tunnel_core::codec::{CodecError, take_len_prefixed_bytes, take_len_prefixed_string};
use ed25519_dalek::{Signer, SigningKey};
use secure_tunnel_core::account_session::{AccountAuthMode, AccountAuthRequest, AccountAuthResult, AccountFreshness};
use secure_tunnel_core::app_message::ApplicationMessage;
use secure_tunnel_core::device_session::{
    DeviceChallenge, DeviceProofInput, DeviceProofPurpose, DeviceResult, DeviceState,
    verify_device_proof_signature,
};
use secure_tunnel_core::error::ApiError;
use secure_tunnel_core::inner_context::{Hash32, InnerChannelContext};
use secure_tunnel_core::noise::{decode_close_message, encode_close_message};
use secure_tunnel_core::session::CloseDirective;

const VECTORS: &str = r#"{
  "prologue_hex": "7365637572652d74756e6e656c2d696e6e65722d70726f6c6f6775652d763100000d7365637572652d74756e6e656c000100117365637572652d74756e6e656c2d617069000470726f64000f6170692e6578616d706c652e636f6d030303030303030303030303030303030303030303030303030303030303030300214e6f6973655f4e585f32353531395f436861436861506f6c795f424c414b453273",
  "known_device_reauth_proof_hex": "7365637572652d74756e6e656c2d6465766963652d70726f6f662d763100000d7365637572652d74756e6e656c00010101010101010101010101010101010101010101010101010101010101010101020202020202020202020202020202020202020202020202020202020202020200117365637572652d74756e6e656c2d617069000470726f64000f6170692e6578616d706c652e636f6d030303030303030303030303030303030303030303030303030303030303030300214e6f6973655f4e585f32353531395f436861436861506f6c795f424c414b453273040404040404040404040404040404040404040404040404040404040404040400106465766963652d656432353531392d310100000199c82ce710",
  "new_device_enrollment_proof_hex": "7365637572652d74756e6e656c2d6465766963652d70726f6f662d763100000d7365637572652d74756e6e656c00010101010101010101010101010101010101010101010101010101010101010101020202020202020202020202020202020202020202020202020202020202020200117365637572652d74756e6e656c2d617069000470726f64000f6170692e6578616d706c652e636f6d030303030303030303030303030303030303030303030303030303030303030300214e6f6973655f4e585f32353531395f436861436861506f6c795f424c414b453273040404040404040404040404040404040404040404040404040404040404040400106465766963652d656432353531392d310200000199c82ce710"
}"#;

fn to_hex(bytes: &[u8]) -> String {
    let mut out = String::with_capacity(bytes.len() * 2);
    for byte in bytes {
        out.push_str(&format!("{byte:02x}"));
    }
    out
}

fn assert_fixture_contains(key: &str, value: &str) {
    let expected = format!("\"{key}\": \"{value}\"");
    assert!(VECTORS.contains(&expected), "missing {key} vector");
}

fn fixture_context() -> InnerChannelContext {
    InnerChannelContext::v1(
        "secure-tunnel-api".to_owned(),
        "prod".to_owned(),
        "api.example.com".to_owned(),
        [3_u8; 32],
    )
    .unwrap()
}

#[test]
fn fixture_vectors_match_canonical_protocol_bytes() {
    let context = fixture_context();
    assert_fixture_contains("prologue_hex", &to_hex(&context.prologue_bytes().unwrap()));

    let input = DeviceProofInput {
        noise_handshake_hash: [1_u8; 32],
        server_challenge: [2_u8; 32],
        context,
        account_context_hash: [4_u8; 32],
        device_key_id: "device-ed25519-1".to_owned(),
        purpose: DeviceProofPurpose::KnownDeviceReauth,
        expires_at_unix_ms: 1_760_000_010_000,
    };
    assert_fixture_contains(
        "known_device_reauth_proof_hex",
        &to_hex(&input.canonical_bytes().unwrap()),
    );

    let enrollment_input = DeviceProofInput {
        purpose: DeviceProofPurpose::NewDeviceEnrollment,
        ..input
    };
    assert_fixture_contains(
        "new_device_enrollment_proof_hex",
        &to_hex(&enrollment_input.canonical_bytes().unwrap()),
    );
}

#[test]
fn account_request_round_trips() {
    let request = AccountAuthRequest {
        account_id: "acct-1".to_owned(),
        credential_payload: vec![1, 2, 3],
        mode: AccountAuthMode::Fresh,
    };

    assert_eq!(
        AccountAuthRequest::decode(&request.encode().unwrap()).unwrap(),
        request
    );
}

#[test]
fn account_result_round_trips() {
    let result = AccountAuthResult {
        account_id: "acct-1".to_owned(),
        session_context_id: "ctx-1".to_owned(),
        account_context_hash: [4_u8; 32],
        freshness: AccountFreshness::Resumed,
    };

    assert_eq!(
        AccountAuthResult::decode(&result.encode().unwrap()).unwrap(),
        result
    );
}

fn proof_input(noise_handshake_hash: Hash32) -> DeviceProofInput {
    DeviceProofInput {
        noise_handshake_hash,
        server_challenge: [2_u8; 32],
        context: InnerChannelContext::v1(
            "svc".to_owned(),
            "prod".to_owned(),
            "api.example.com".to_owned(),
            [3_u8; 32],
        )
        .unwrap(),
        account_context_hash: [4_u8; 32],
        device_key_id: "device-1".to_owned(),
        purpose: DeviceProofPurpose::KnownDeviceReauth,
        expires_at_unix_ms: 1_760_000_000_000,
    }
}

#[test]
fn canonical_device_proof_changes_with_handshake_hash() {
    let mut input = proof_input([1_u8; 32]);
    let first = input.canonical_bytes().unwrap();
    input.noise_handshake_hash = [2_u8; 32];
    let second = input.canonical_bytes().unwrap();

    assert_ne!(first, second);
}

#[test]
fn ed25519_device_proof_verifies() {
    let signing_key = SigningKey::from_bytes(&[5_u8; 32]);
    let bytes = proof_input([1_u8; 32]).canonical_bytes().unwrap();
    let signature = signing_key.sign(&bytes).to_bytes();

    verify_device_proof_signature(&signing_key.verifying_key().to_bytes(), &bytes, &signature)
        .unwrap();
}

#[test]
fn device_proof_with_wrong_signature_is_refused() {
    let signing_key = SigningKey::from_bytes(&[5_u8; 32]);
    let bytes = proof_input([1_u8; 32]).canonical_bytes().unwrap();
    let signature = signing_key.sign(&bytes).to_bytes();
    let other = proof_input([9_u8; 32]).canonical_bytes().unwrap();

    assert_eq!(
        verify_device_proof_signature(&signing_key.verifying_key().to_bytes(), &other, &signature),
        Err(ApiError::PostHandshakeAuthFailure)
    );
}

#[test]
fn account_request_encoding_is_a_framed_account_message() {
    let request = AccountAuthRequest {
        account_id: "a".to_owned(),
        credential_payload: vec![7],
        mode: AccountAuthMode::Resume,
    };
    let record = request.encode().unwrap();
    let message = ApplicationMessage::decode(&record).unwrap();
    assert_eq!(message.family, 1);
    assert_eq!(message.message_type, 1);
    assert_eq!(ApplicationMessage::decode(&message.encode().unwrap()).unwrap(), message);
}

#[test]
fn application_message_rejects_trailing_bytes() {
    let message = ApplicationMessage::new(1, 2, vec![vec![1, 2], vec![]]).unwrap();
    let mut record = message.encode().unwrap();
    assert_eq!(ApplicationMessage::decode(&record).unwrap(), message);
    record.push(0);
    assert!(ApplicationMessage::decode(&record).is_err());
}

#[test]
fn device_challenge_round_trips_and_expires() {
    let challenge = DeviceChallenge {
        server_challenge: [6_u8; 32],
        expires_at_unix_ms: 1_000,
    };
    let decoded = DeviceChallenge::decode_auth(&challenge.encode_auth().unwrap()).unwrap();
    assert_eq!(decoded, challenge);
    assert!(challenge.ensure_fresh(999).is_ok());
    assert!(challenge.ensure_fresh(1_000).is_err());
}

#[test]
fn device_result_round_trips() {
    let result = DeviceResult {
        device_key_id: "device-1".to_owned(),
        state: DeviceState::Pending,
    };
    assert_eq!(DeviceResult::decode_auth(&result.encode_auth().unwrap()).unwrap(), result);
    assert_eq!(
        DeviceResult::decode_enrollment(&result.encode_enrollment().unwrap()).unwrap(),
        result
    );
}

#[test]
fn close_message_round_trips() {
    let directive = CloseDirective { code: 0x1234, drain: true };
    let encoded = encode_close_message(directive);
    assert_eq!(encoded, vec![1, 0x12, 0x34, 1]);
    assert_eq!(decode_close_message(&encoded), Some(directive));
    assert_eq!(decode_close_message(&[2, 0, 0, 0]), None);
    assert_eq!(decode_close_message(&[1, 0, 0]), None);
}

#[test]
fn len_prefixed_bytes_consume_the_prefix_even_when_short() {
    let data = [0u8, 3, 7, 8];
    let mut input: &[u8] = &data;
    assert_eq!(take_len_prefixed_bytes(&mut input), Err(CodecError::UnexpectedEof));
    assert_eq!(input, &[7u8, 8][..]);

    let one = [5u8];
    let mut input: &[u8] = &one;
    assert_eq!(take_len_prefixed_bytes(&mut input), Err(CodecError::UnexpectedEof));
    assert_eq!(input, &[5u8][..]);

    let data = [0u8, 2, 7, 8, 9];
    let mut input: &[u8] = &data;
    assert_eq!(take_len_prefixed_bytes(&mut input), Ok(vec![7u8, 8]));
    assert_eq!(input, &[9u8][..]);

    let bad_utf8 = [0u8, 1, 0xff, 1];
    let mut input: &[u8] = &bad_utf8;
    assert_eq!(take_len_prefixed_string(&mut input), Err(CodecError::InvalidUtf8));
    assert_eq!(input, &[1u8][..]);
}

#[test]
fn enrollment_finish_round_trips_through_the_envelope() {
    use_enrollment_round_trip(None, "device-ed25519-1");
    use_enrollment_round_trip(Some([5u8; 32]), &"k".repeat(65_000));
}

fn use_enrollment_round_trip(candidate: Option<[u8; 32]>, key_id: &str) {
    let finish = secure_tunnel_core::device_session::DeviceProofFinish {
        device_key_id: key_id.to_owned(),
        server_challenge: [2u8; 32],
        expires_at_unix_ms: 1_760_000_000_000,
        signature: [4u8; 64],
        candidate_device_public_key: candidate,
    };
    let encoded = finish.encode_enrollment().unwrap();
    let decoded = ApplicationMessage::decode(&encoded).unwrap();
    assert_eq!(
        decoded,
        ApplicationMessage {
            family: secure_tunnel_core::app_message::FAMILY_DEVICE_ENROLLMENT,
            message_type: secure_tunnel_core::app_message::TYPE_DEVICE_ENROLL_FINISH,
            fields: vec![
                key_id.as_bytes().to_vec(),
                vec![2u8; 32],
                1_760_000_000_000u64.to_be_bytes().to_vec(),
                vec![4u8; 64],
                candidate.unwrap_or([0u8; 32]).to_vec(),
            ],
        }
    );
}

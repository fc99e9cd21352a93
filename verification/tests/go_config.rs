use base64::Engine;
use base64::engine::general_purpose::STANDARD;

use secure_tunnel_core::client_config::TransportPolicyConfig;
use secure_tunnel_core::go_config::{
    GoClientConfig, decode_b64_vecs, decode_service_pins, into_sdk,
};
use secure_tunnel_core::TrustAnchor;

fn config() -> GoClientConfig {
    GoClientConfig {
        transport_policy: None,
        outer_root_certificates_der_b64: Vec::new(),
        descriptor_trust_anchors: Vec::new(),
        pinned_service_static_public_keys_b64: Vec::new(),
    }
}

#[test]
fn go_config_keeps_defaults_for_empty_lists() {
    let settled = into_sdk(config()).unwrap();
    assert_eq!(settled.transport_policy, None);
    assert_eq!(settled.outer_root_certificates_der, None);
    assert_eq!(settled.descriptor_trust_anchors, None);
    assert_eq!(settled.pinned_service_static_public_keys, None);
}

#[test]
fn go_config_decodes_roots_and_pins() {
    let policy = TransportPolicyConfig {
        quic_reprobe_delay_seconds: 1,
        connect_timeout_ms: 2,
        quic_connect_timeout_ms: 3,
        wss_connect_timeout_ms: 4,
        secure_ready_timeout_ms: 5,
        record_read_timeout_ms: 6,
        record_write_timeout_ms: 7,
    };
    let anchor = TrustAnchor {
        key_id: "root".to_owned(),
        algorithm: "ed25519".to_owned(),
        public_key: STANDARD.encode([9_u8; 32]),
    };
    let mut input = config();
    input.transport_policy = Some(policy);
    input.outer_root_certificates_der_b64 = vec![STANDARD.encode([1_u8, 2, 3])];
    input.descriptor_trust_anchors = vec![anchor];
    input.pinned_service_static_public_keys_b64 = vec![STANDARD.encode([7_u8; 32])];

    let settled = into_sdk(input).unwrap();
    assert_eq!(settled.transport_policy, Some(policy));
    assert_eq!(settled.outer_root_certificates_der, Some(vec![vec![1, 2, 3]]));
    assert_eq!(settled.descriptor_trust_anchors.unwrap()[0].key_id, "root");
    assert_eq!(settled.pinned_service_static_public_keys, Some(vec![[7_u8; 32]]));
}

#[test]
fn go_config_reports_decode_and_length_errors() {
    assert_eq!(
        decode_b64_vecs(&vec!["AAEC".to_owned(), "!!".to_owned()]),
        Err("Invalid symbol 33, offset 0.".to_owned())
    );
    assert_eq!(decode_b64_vecs(&vec!["AAEC".to_owned()]), Ok(vec![vec![0, 1, 2]]));
    assert_eq!(
        decode_service_pins(&vec![STANDARD.encode([1_u8; 31])]),
        Err("service static public key must be 32 bytes".to_owned())
    );
    let mut input = config();
    input.outer_root_certificates_der_b64 = vec!["%".to_owned()];
    input.pinned_service_static_public_keys_b64 = vec![STANDARD.encode([1_u8; 31])];
    assert!(into_sdk(input).unwrap_err().starts_with("Invalid"));
}

//! Protocol identifiers and size budgets of v1.

use vstd::prelude::*;

verus! {

/// v1 protocol identifier bound into the service descriptor and Noise prologue.
pub const PROTOCOL_ID_V1: &'static str = "secure-tunnel-v1";

/// v1 Noise suite identifier.
pub const NOISE_SUITE_V1: &'static str = "Noise_NX_25519_ChaChaPoly_BLAKE2s";

/// v1 `QUIC` ALPN identifier.
pub const QUIC_ALPN_V1: &'static str = "secure-tunnel-v1";

/// v1 `WSS` subprotocol identifier.
pub const WSS_SUBPROTOCOL_V1: &'static str = "secure-tunnel-v1";

/// Maximum plaintext payload carried in one framed record before encryption.
pub const MAX_APPLICATION_PLAINTEXT_SIZE: usize = 65519;

/// Maximum ciphertext or handshake message payload carried in one framed record.
pub const MAX_RECORD_PAYLOAD_SIZE: usize = 65535;

/// Returns the stable v1 protocol identifier.
pub fn protocol_id_v1() -> (id: &'static str)
    ensures
        id@ == PROTOCOL_ID_V1@,
{
    PROTOCOL_ID_V1
}

} // verus!

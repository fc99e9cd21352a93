//! Plain data types of the Flutter and C ABI bindings, and the small
//! encodings the WebAssembly ABI uses to hand results to its host.

use vstd::prelude::*;

use crate::client_config::{
    PINNED_KEY_LENGTH_ERROR, SdkClientConfig, TransportPolicyConfig, all_keys_32, keys_match,
    outer_roots, pinned_keys, trust_anchor,
};
use crate::descriptor::{AnchorView, TrustAnchor};
use crate::text::concat_str;
use crate::sdk_types::AccountAuthMode;

verus! {

/// Carrier as the Flutter binding reports it.
#[derive(Debug, Clone, Copy, PartialEq, Eq)]
pub enum FlutterCarrier {
    /// Raw `QUIC` over UDP.
    Quic,
    /// WebSocket over HTTPS.
    Wss,
}

/// Account authentication mode as the Flutter binding takes it.
#[derive(Debug, Clone, Copy, PartialEq, Eq)]
pub enum FlutterAccountAuthMode {
    /// Authenticate with current account credentials.
    Fresh,
    /// Resume a previous account session.
    Resume,
}

/// Close classification as the Flutter binding reports it.
#[derive(Debug, Clone, Copy, PartialEq, Eq)]
pub enum FlutterCloseClassification {
    /// Encrypted graceful close completed.
    Graceful,
    /// Transport closed abruptly.
    Abrupt,
    /// Close started but did not complete cleanly.
    Truncated,
}

/// Client configuration as the Flutter binding takes it.
#[derive(Debug, Clone, PartialEq, Eq)]
pub struct FlutterClientConfig {
    /// Seconds before retrying `QUIC` after fallback.
    pub quic_reprobe_delay_seconds: u64,
    /// Milliseconds allowed for the full connect attempt.
    pub connect_timeout_ms: u64,
    /// Milliseconds allowed for `QUIC` carrier setup phases.
    pub quic_connect_timeout_ms: u64,
    /// Milliseconds allowed for the `WSS` handshake.
    pub wss_connect_timeout_ms: u64,
    /// Milliseconds allowed for secure-ready evaluation.
    pub secure_ready_timeout_ms: u64,
    /// Milliseconds allowed for one framed read.
    pub record_read_timeout_ms: u64,
    /// Milliseconds allowed for one framed write.
    pub record_write_timeout_ms: u64,
    /// DER-encoded outer TLS roots added to platform trust.
    pub outer_root_certificates_der: Vec<Vec<u8>>,
    /// Pinned descriptor roots that may authorize service descriptors.
    pub descriptor_trust_anchors: Vec<FlutterDescriptorTrustAnchor>,
    /// Accepted service static public keys.
    pub pinned_service_static_public_keys: Vec<Vec<u8>>,
}

/// Descriptor root as the Flutter binding takes it.
#[derive(Debug, Clone, PartialEq, Eq)]
pub struct FlutterDescriptorTrustAnchor {
    /// Operator-managed key identifier.
    pub key_id: String,
    /// Signature algorithm name.
    pub algorithm: String,
    /// Encoded public key.
    pub public_key: String,
}

/// Connect inputs as the Flutter binding takes them.
#[derive(Debug, Clone, PartialEq, Eq)]
pub struct FlutterConnectOptions {
    /// JSON service descriptor.
    pub descriptor_json: String,
    /// Caller-supplied Unix timestamp.
    pub now_unix_seconds: u64,
}

/// Connect report as the Flutter binding returns it.
#[derive(Debug, Clone, Copy, PartialEq, Eq)]
pub struct FlutterConnectReport {
    /// Carrier selected for this session.
    pub selected_carrier: FlutterCarrier,
}

/// Secure-channel artifacts as the Flutter binding returns them.
#[derive(Debug, Clone, PartialEq, Eq)]
pub struct FlutterSecureChannelArtifacts {
    /// Authenticated service Noise static public key, when available.
    pub service_static_public_key: Option<Vec<u8>>,
}

/// Account auth request as the Flutter binding takes it.
#[derive(Debug, Clone, PartialEq, Eq)]
pub struct FlutterAccountAuthRequest {
    /// Product account identifier.
    pub account_id: String,
    /// Opaque credential payload.
    pub credential_payload: Vec<u8>,
    /// Requested auth mode.
    pub mode: FlutterAccountAuthMode,
}

/// Account auth report as the Flutter binding returns it.
#[derive(Debug, Clone, PartialEq, Eq)]
pub struct FlutterAccountAuthReport {
    /// Product account identifier accepted by the service.
    pub account_id: String,
}

/// Close report as the Flutter binding returns it.
#[derive(Debug, Clone, Copy, PartialEq, Eq)]
pub struct FlutterCloseReport {
    /// Coarse close classification.
    pub classification: FlutterCloseClassification,
}

/// Status of a C ABI call.
#[derive(Debug, Clone, Copy, PartialEq, Eq)]
pub enum SecureTunnelStatus {
    /// The operation succeeded.
    SecureTunnelStatusSuccess,
    /// The caller supplied a null pointer.
    SecureTunnelStatusNullPointer,
    /// The caller supplied bytes that were not valid UTF-8.
    SecureTunnelStatusInvalidUtf8,
    /// JSON decoding or encoding failed.
    SecureTunnelStatusInvalidJson,
    /// The descriptor decoded but failed Secure Tunnel validation.
    SecureTunnelStatusInvalidDescriptor,
    /// The Rust side could not allocate a caller-owned C string.
    SecureTunnelStatusAllocationFailure,
    /// Caller configuration was invalid.
    SecureTunnelStatusInvalidConfig,
    /// Creating a runtime or opaque handle failed.
    SecureTunnelStatusRuntimeFailure,
    /// The SDK connect operation failed.
    SecureTunnelStatusConnectFailure,
    /// An authenticated session operation failed.
    SecureTunnelStatusSessionFailure,
}

/// The numeric code of a status on the C ABI.
pub open spec fn status_code_spec(status: SecureTunnelStatus) -> i32 {
    match status {
        SecureTunnelStatus::SecureTunnelStatusSuccess => 0,
        SecureTunnelStatus::SecureTunnelStatusNullPointer => 1,
        SecureTunnelStatus::SecureTunnelStatusInvalidUtf8 => 2,
        SecureTunnelStatus::SecureTunnelStatusInvalidJson => 3,
        SecureTunnelStatus::SecureTunnelStatusInvalidDescriptor => 4,
        SecureTunnelStatus::SecureTunnelStatusAllocationFailure => 5,
        SecureTunnelStatus::SecureTunnelStatusInvalidConfig => 6,
        SecureTunnelStatus::SecureTunnelStatusRuntimeFailure => 7,
        SecureTunnelStatus::SecureTunnelStatusConnectFailure => 8,
        SecureTunnelStatus::SecureTunnelStatusSessionFailure => 9,
    }
}

impl SecureTunnelStatus {
    /// The numeric code of the status on the C ABI.
    pub fn code(&self) -> (c: i32)
        ensures
            c == status_code_spec(*self),
    {
        match self {
            SecureTunnelStatus::SecureTunnelStatusSuccess => 0,
            SecureTunnelStatus::SecureTunnelStatusNullPointer => 1,
            SecureTunnelStatus::SecureTunnelStatusInvalidUtf8 => 2,
            SecureTunnelStatus::SecureTunnelStatusInvalidJson => 3,
            SecureTunnelStatus::SecureTunnelStatusInvalidDescriptor => 4,
            SecureTunnelStatus::SecureTunnelStatusAllocationFailure => 5,
            SecureTunnelStatus::SecureTunnelStatusInvalidConfig => 6,
            SecureTunnelStatus::SecureTunnelStatusRuntimeFailure => 7,
            SecureTunnelStatus::SecureTunnelStatusConnectFailure => 8,
            SecureTunnelStatus::SecureTunnelStatusSessionFailure => 9,
        }
    }

    /// The status with a numeric code, if any.
    pub fn from_code(code: i32) -> (s: Option<Self>)
        ensures
            s matches Some(status) ==> status_code_spec(status) == code,
            s is None <==> !(0 <= code <= 9),
    {
        match code {
            0 => Some(SecureTunnelStatus::SecureTunnelStatusSuccess),
            1 => Some(SecureTunnelStatus::SecureTunnelStatusNullPointer),
            2 => Some(SecureTunnelStatus::SecureTunnelStatusInvalidUtf8),
            3 => Some(SecureTunnelStatus::SecureTunnelStatusInvalidJson),
            4 => Some(SecureTunnelStatus::SecureTunnelStatusInvalidDescriptor),
            5 => Some(SecureTunnelStatus::SecureTunnelStatusAllocationFailure),
            6 => Some(SecureTunnelStatus::SecureTunnelStatusInvalidConfig),
            7 => Some(SecureTunnelStatus::SecureTunnelStatusRuntimeFailure),
            8 => Some(SecureTunnelStatus::SecureTunnelStatusConnectFailure),
            9 => Some(SecureTunnelStatus::SecureTunnelStatusSessionFailure),
            _ => None,
        }
    }
}

/// Account authentication mode on the C ABI.
#[derive(Debug, Clone, Copy, PartialEq, Eq)]
pub enum SecureTunnelAccountAuthMode {
    /// Authenticate with current account credentials.
    SecureTunnelAccountAuthModeFresh,
    /// Resume a previous account session.
    SecureTunnelAccountAuthModeResume,
}

impl SecureTunnelAccountAuthMode {
    /// The numeric code of the mode on the C ABI.
    pub fn code(&self) -> (c: i32)
        ensures
            c == match *self {
                SecureTunnelAccountAuthMode::SecureTunnelAccountAuthModeFresh => 0i32,
                SecureTunnelAccountAuthMode::SecureTunnelAccountAuthModeResume => 1i32,
            },
    {
        match self {
            SecureTunnelAccountAuthMode::SecureTunnelAccountAuthModeFresh => 0,
            SecureTunnelAccountAuthMode::SecureTunnelAccountAuthModeResume => 1,
        }
    }
}

/// The account authentication mode a C ABI mode code names: `0` is a fresh
/// authentication and `1` resumes a session; any other code is refused as
/// an invalid configuration, with its message.
pub fn account_auth_mode_from_code(mode: u32) -> (r: Result<
    AccountAuthMode,
    (SecureTunnelStatus, &'static str),
>)
    ensures
        mode == 0 ==> r == Ok::<AccountAuthMode, (SecureTunnelStatus, &'static str)>(
            AccountAuthMode::Fresh,
        ),
        mode == 1 ==> r == Ok::<AccountAuthMode, (SecureTunnelStatus, &'static str)>(
            AccountAuthMode::Resume,
        ),
        mode > 1 ==> r == Err::<AccountAuthMode, (SecureTunnelStatus, &'static str)>(
            (SecureTunnelStatus::SecureTunnelStatusInvalidConfig, "account auth mode must be 0 or 1"),
        ),
{
    match mode {
        0 => Ok(AccountAuthMode::Fresh),
        1 => Ok(AccountAuthMode::Resume),
        _ => Err(
            (SecureTunnelStatus::SecureTunnelStatusInvalidConfig, "account auth mode must be 0 or 1"),
        ),
    }
}

/// `Error:`, the prefix of every error text the WebAssembly ABI returns.
pub open spec fn error_prefix() -> Seq<u8> {
    seq![69u8, 114u8, 114u8, 111u8, 114u8, 58u8]
}

/// The error text the WebAssembly ABI returns for `message`.
pub fn wasm_error_text(message: &str) -> (s: String)
    ensures
        s@ == "Error: "@ + message@,
{
    concat_str("Error: ", message)
}

/// Whether bytes returned by the WebAssembly ABI are an error text: at least
/// six bytes that start with `Error:`.
pub fn is_secure_tunnel_error(bytes: &[u8]) -> (b: bool)
    ensures
        b <==> bytes@.len() >= 6 && bytes@.subrange(0, 6) == error_prefix(),
{
    if bytes.len() < 6 {
        return false;
    }
    let r = bytes[0] == 69 && bytes[1] == 114 && bytes[2] == 114 && bytes[3] == 111 && bytes[4]
        == 114 && bytes[5] == 58;
    proof {
        if bytes@.subrange(0, 6) == error_prefix() {
            assert(bytes@.subrange(0, 6)[0] == bytes@[0]);
            assert(bytes@.subrange(0, 6)[1] == bytes@[1]);
            assert(bytes@.subrange(0, 6)[2] == bytes@[2]);
            assert(bytes@.subrange(0, 6)[3] == bytes@[3]);
            assert(bytes@.subrange(0, 6)[4] == bytes@[4]);
            assert(bytes@.subrange(0, 6)[5] == bytes@[5]);
        }
        if r {
            assert(bytes@.subrange(0, 6) =~= error_prefix());
        }
    }
    r
}

/// Packs a 32-bit address and a 32-bit length into the one `u64` the
/// WebAssembly ABI returns: the address in the high half, the length in the
/// low half.
pub fn pack_address_len(address: u32, len: u32) -> (packed: u64)
    ensures
        packed == address as int * 0x1_0000_0000 + len as int,
        packed >> 32u64 == address as u64,
        packed & 0xffff_ffffu64 == len as u64,
{
    let packed = ((address as u64) << 32u64) | (len as u64);
    assert(((address as u64) << 32u64) | (len as u64) == address as u64 * 0x1_0000_0000u64
        + len as u64) by (bit_vector);
    assert((((address as u64) << 32u64) | (len as u64)) >> 32u64 == address as u64) by (bit_vector);
    assert((((address as u64) << 32u64) | (len as u64)) & 0xffff_ffffu64 == len as u64)
        by (bit_vector);
    packed
}

/// The size the WebAssembly ABI allocates for `size` requested bytes: at
/// least one.
pub fn allocation_size(size: usize) -> (s: usize)
    ensures
        s == if size == 0 {
            1
        } else {
            size
        },
{
    if size == 0 {
        1
    } else {
        size
    }
}


/// The root a Flutter descriptor root denotes.
pub open spec fn flutter_anchor_view(a: FlutterDescriptorTrustAnchor) -> AnchorView {
    AnchorView { key_id: a.key_id@, algorithm: a.algorithm@, public_key: a.public_key@ }
}

/// Converts Flutter descriptor roots, in order.
pub fn flutter_trust_anchors(anchors: &Vec<FlutterDescriptorTrustAnchor>) -> (r: Vec<TrustAnchor>)
    ensures
        r@.len() == anchors@.len(),
        forall|i: int| 0 <= i < anchors@.len() ==> (#[trigger] r@[i])@ == flutter_anchor_view(
            anchors@[i],
        ),
{
    let mut out: Vec<TrustAnchor> = Vec::new();
    let mut i: usize = 0;
    while i < anchors.len()
        invariant
            i <= anchors@.len(),
            out@.len() == i,
            forall|j: int| 0 <= j < i ==> (#[trigger] out@[j])@ == flutter_anchor_view(anchors@[j]),
        decreases anchors@.len() - i,
    {
        let a = &anchors[i];
        out.push(trust_anchor(&a.key_id, &a.algorithm, &a.public_key));
        i = i + 1;
    }
    out
}

/// The transport policy a Flutter configuration carries.
pub open spec fn flutter_policy(config: FlutterClientConfig) -> TransportPolicyConfig {
    TransportPolicyConfig {
        quic_reprobe_delay_seconds: config.quic_reprobe_delay_seconds,
        connect_timeout_ms: config.connect_timeout_ms,
        quic_connect_timeout_ms: config.quic_connect_timeout_ms,
        wss_connect_timeout_ms: config.wss_connect_timeout_ms,
        secure_ready_timeout_ms: config.secure_ready_timeout_ms,
        record_read_timeout_ms: config.record_read_timeout_ms,
        record_write_timeout_ms: config.record_write_timeout_ms,
    }
}

/// Settles the SDK client configuration of a Flutter configuration: the
/// timeouts as given; the outer roots, descriptor roots and pinned keys as
/// given, or the SDK's defaults where a list is empty.
///
/// Fails with `PINNED_KEY_LENGTH_ERROR` exactly when a pinned key is not 32
/// bytes long.
pub fn sdk_config(config: FlutterClientConfig) -> (r: Result<SdkClientConfig, String>)
    ensures
        r is Ok <==> all_keys_32(config.pinned_service_static_public_keys@),
        r matches Err(e) ==> e@ == PINNED_KEY_LENGTH_ERROR@,
        r matches Ok(c) ==> {
            &&& c.transport_policy == Some(flutter_policy(config))
            &&& config.outer_root_certificates_der@.len() == 0 ==> c.outer_root_certificates_der
                is None
            &&& config.outer_root_certificates_der@.len() > 0 ==> c.outer_root_certificates_der
                == Some(config.outer_root_certificates_der)
            &&& config.descriptor_trust_anchors@.len() == 0 ==> c.descriptor_trust_anchors is None
            &&& config.descriptor_trust_anchors@.len() > 0 ==> (c.descriptor_trust_anchors matches Some(
                anchors,
            ) && anchors@.len() == config.descriptor_trust_anchors@.len() && forall|i: int|
                0 <= i < anchors@.len() ==> (#[trigger] anchors@[i])@ == flutter_anchor_view(
                    config.descriptor_trust_anchors@[i],
                ))
            &&& config.pinned_service_static_public_keys@.len() == 0
                ==> c.pinned_service_static_public_keys is None
            &&& config.pinned_service_static_public_keys@.len() > 0
                ==> (c.pinned_service_static_public_keys matches Some(keys) && keys_match(
                keys@,
                config.pinned_service_static_public_keys@,
            ))
        },
{
    let pinned = match pinned_keys(&config.pinned_service_static_public_keys) {
        Some(pinned) => pinned,
        None => return Err(PINNED_KEY_LENGTH_ERROR.to_owned()),
    };
    let policy = TransportPolicyConfig {
        quic_reprobe_delay_seconds: config.quic_reprobe_delay_seconds,
        connect_timeout_ms: config.connect_timeout_ms,
        quic_connect_timeout_ms: config.quic_connect_timeout_ms,
        wss_connect_timeout_ms: config.wss_connect_timeout_ms,
        secure_ready_timeout_ms: config.secure_ready_timeout_ms,
        record_read_timeout_ms: config.record_read_timeout_ms,
        record_write_timeout_ms: config.record_write_timeout_ms,
    };
    let anchors = if config.descriptor_trust_anchors.len() == 0 {
        None
    } else {
        Some(flutter_trust_anchors(&config.descriptor_trust_anchors))
    };
    let pinned = if pinned.len() == 0 {
        None
    } else {
        Some(pinned)
    };
    Ok(
        SdkClientConfig {
            transport_policy: Some(policy),
            outer_root_certificates_der: outer_roots(config.outer_root_certificates_der),
            descriptor_trust_anchors: anchors,
            pinned_service_static_public_keys: pinned,
        },
    )
}

} // verus!

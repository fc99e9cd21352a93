//! Plain data types the generated foreign-language SDK bindings exchange,
//! and the error object they raise.

use vstd::prelude::*;

use std::sync::Arc;

use crate::client_config::{
    PINNED_KEY_LENGTH_ERROR, SdkClientConfig, TransportPolicyConfig, all_keys_32, keys_match,
    outer_roots, pinned_keys, trust_anchor,
};
use crate::descriptor::{AnchorView, TrustAnchor};
use crate::text::concat_str;

verus! {

/// Outer carrier selected or attempted by the SDK.
#[derive(Debug, Clone, Copy, PartialEq, Eq)]
pub enum Carrier {
    /// Raw `QUIC` over UDP.
    Quic,
    /// WebSocket over HTTPS.
    Wss,
}

/// Why a candidate appears in the transport plan.
#[derive(Debug, Clone, Copy, PartialEq, Eq)]
pub enum CandidateSource {
    /// Descriptor-preferred carrier.
    PreferredCarrier,
    /// Live fallback carrier.
    FallbackCarrier,
    /// Cached posture skipped `QUIC`.
    CachedQuicBadNetwork,
    /// Cached fallback expired and `QUIC` is reprobed.
    QuicReprobeAfterCachedFallback,
}

/// Fallback-eligible outer-carrier failure classes.
#[derive(Debug, Clone, Copy, PartialEq, Eq)]
pub enum FallbackReason {
    /// UDP path failed before secure-ready.
    OuterPathFailure,
    /// `QUIC` was rejected before secure-ready.
    OuterQuicRejected,
    /// `QUIC` closed before secure-ready.
    OuterQuicClosedEarly,
}

/// Whether carrier choice came from live probing or cached posture.
#[derive(Debug, Clone, Copy, PartialEq, Eq)]
pub enum CacheDisposition {
    /// No cached posture affected selection.
    LiveProbe,
    /// Cached fallback affected selection.
    CachedFallback,
    /// Cached posture expired and was reprobed.
    Reprobe,
}

/// Terminal outcome for one carrier attempt.
#[derive(Debug, Clone, Copy, PartialEq, Eq)]
pub enum TransportAttemptOutcome {
    /// The carrier reached secure-ready.
    SecureReady,
    /// The carrier failed in a way that permitted fallback.
    Fallback,
    /// The carrier failed and stopped selection.
    Failed,
}

/// Account authentication mode requested by the caller.
#[derive(Debug, Clone, Copy, PartialEq, Eq)]
pub enum AccountAuthMode {
    /// Authenticate with current account credentials.
    Fresh,
    /// Resume a previous account session.
    Resume,
}

/// Account freshness established by the service.
#[derive(Debug, Clone, Copy, PartialEq, Eq)]
pub enum AccountFreshness {
    /// Fresh account authentication.
    Fresh,
    /// Resumed account session.
    Resumed,
}

/// Device state exposed by the SDK.
#[derive(Debug, Clone, Copy, PartialEq, Eq)]
pub enum DeviceState {
    /// Device can use the tunnel.
    Active,
    /// Device is accepted but awaiting approval.
    Pending,
}

/// Lifecycle state exposed by a session.
#[derive(Debug, Clone, Copy, PartialEq, Eq)]
pub enum SessionState {
    /// Outer carrier is ready.
    CarrierReady,
    /// Inner handshake is in progress.
    NoiseHandshake,
    /// Inner secure channel is ready.
    SecureReady,
    /// Account authentication completed.
    AccountAuthenticated,
    /// Known-device authentication completed.
    KnownDeviceAuthenticated,
    /// Graceful close is in progress.
    Closing,
    /// Session is closed.
    Closed,
}

/// Coarse close classification.
#[derive(Debug, Clone, Copy, PartialEq, Eq)]
pub enum CloseClassification {
    /// Encrypted graceful close completed.
    Graceful,
    /// Transport closed abruptly.
    Abrupt,
    /// Close started but did not complete cleanly.
    Truncated,
}

/// SDK client configuration for generated clients.
#[derive(Debug, Clone, PartialEq, Eq)]
pub struct ClientConfig {
    /// Seconds before retrying `QUIC` after fallback.
    pub quic_reprobe_delay_seconds: u64,
    /// Milliseconds allowed for the full connect attempt.
    pub connect_timeout_ms: u64,
    /// Milliseconds allowed for `QUIC` carrier setup phases.
    pub quic_connect_timeout_ms: u64,
    /// Milliseconds allowed for the `WSS` handshake.
    pub wss_connect_timeout_ms: u64,
    /// Milliseconds allowed for secure-ready evaluation.
    pub secure_ready_timeout_ms: u64,
    /// Milliseconds allowed for one framed read.
    pub record_read_timeout_ms: u64,
    /// Milliseconds allowed for one framed write.
    pub record_write_timeout_ms: u64,
    /// DER-encoded outer TLS roots added to platform trust.
    pub outer_root_certificates_der: Vec<Vec<u8>>,
    /// Pinned descriptor roots that may authorize service descriptors.
    pub descriptor_trust_anchors: Vec<DescriptorTrustAnchor>,
    /// Accepted service static public keys.
    pub pinned_service_static_public_keys: Vec<Vec<u8>>,
}

/// Root key that authorizes descriptors for generated clients.
#[derive(Debug, Clone, PartialEq, Eq)]
pub struct DescriptorTrustAnchor {
    /// Operator-managed key identifier.
    pub key_id: String,
    /// Signature algorithm name, for example `ed25519`.
    pub algorithm: String,
    /// Public key bytes encoded for transport or config.
    pub public_key: String,
}

/// Inputs for one connect attempt.
#[derive(Debug, Clone, PartialEq, Eq)]
pub struct ConnectOptions {
    /// JSON service descriptor.
    pub descriptor_json: String,
    /// Caller-supplied Unix timestamp.
    pub now_unix_seconds: u64,
    /// Optional cached network posture.
    pub transport_cache: Option<TransportCacheSnapshot>,
}

/// Cached transport posture.
#[derive(Debug, Clone, Copy, PartialEq, Eq)]
pub struct TransportCacheSnapshot {
    /// Last carrier that reached secure-ready.
    pub last_successful_carrier: Option<Carrier>,
    /// Last fallback-eligible `QUIC` failure.
    pub last_quic_failure: Option<FallbackReason>,
    /// Unix timestamp after which `QUIC` should be reprobed.
    pub next_quic_probe_after_unix_seconds: Option<u64>,
    /// Highest descriptor serial accepted for this cache key.
    pub highest_descriptor_serial: Option<u64>,
}

impl Default for TransportCacheSnapshot {
    fn default() -> (r: Self)
        ensures
            r.last_successful_carrier is None,
            r.last_quic_failure is None,
            r.next_quic_probe_after_unix_seconds is None,
            r.highest_descriptor_serial is None,
    {
        TransportCacheSnapshot {
            last_successful_carrier: None,
            last_quic_failure: None,
            next_quic_probe_after_unix_seconds: None,
            highest_descriptor_serial: None,
        }
    }
}

/// One transport attempt for logs and smoke tests.
#[derive(Debug, PartialEq, Eq)]
pub struct TransportAttemptReport {
    /// Carrier that was attempted.
    pub carrier: Carrier,
    /// Why this candidate was attempted.
    pub source: CandidateSource,
    /// Terminal attempt outcome.
    pub outcome: TransportAttemptOutcome,
    /// Fallback reason when outcome is fallback.
    pub fallback_reason: Option<FallbackReason>,
    /// Stable error class when outcome is failed.
    pub failure_kind: Option<String>,
    /// Diagnostic message when outcome is failed.
    pub failure_message: Option<String>,
}

impl Clone for TransportAttemptReport {
    fn clone(&self) -> (r: Self)
        ensures
            r == *self,
    {
        TransportAttemptReport {
            carrier: self.carrier,
            source: self.source,
            outcome: self.outcome,
            fallback_reason: self.fallback_reason,
            failure_kind: crate::descriptor::clone_optional_string(&self.failure_kind),
            failure_message: crate::descriptor::clone_optional_string(&self.failure_message),
        }
    }
}

/// A copy of a list of attempt reports.
pub fn clone_attempt_reports(reports: &Vec<TransportAttemptReport>) -> (r: Vec<TransportAttemptReport>)
    ensures
        r@ == reports@,
{
    let mut out: Vec<TransportAttemptReport> = Vec::new();
    let mut i: usize = 0;
    while i < reports.len()
        invariant
            i <= reports@.len(),
            out@ == reports@.subrange(0, i as int),
        decreases reports@.len() - i,
    {
        out.push(reports[i].clone());
        i = i + 1;
        assert(out@ =~= reports@.subrange(0, i as int));
    }
    assert(reports@.subrange(0, reports@.len() as int) =~= reports@);
    out
}

/// Successful connect report.
#[derive(Debug, Clone, PartialEq, Eq)]
pub struct ConnectReport {
    /// Carrier selected for this session.
    pub selected_carrier: Carrier,
    /// Cache influence on selection.
    pub cache_state: CacheDisposition,
    /// Fallback reason, when fallback occurred.
    pub fallback_reason: Option<FallbackReason>,
    /// Attempt trace collected during selection.
    pub attempts: Vec<TransportAttemptReport>,
    /// Updated transport cache for caller persistence.
    pub transport_cache: TransportCacheSnapshot,
}

/// Account auth request.
#[derive(Debug, Clone, PartialEq, Eq)]
pub struct AccountAuthRequest {
    /// Product account identifier.
    pub account_id: String,
    /// Opaque credential payload.
    pub credential_payload: Vec<u8>,
    /// Requested auth mode.
    pub mode: AccountAuthMode,
}

/// Account auth report.
#[derive(Debug, Clone, PartialEq, Eq)]
pub struct AccountAuthReport {
    /// Product account identifier accepted by service.
    pub account_id: String,
    /// Server-side session context identifier.
    pub session_context_id: String,
    /// Stable account context hash.
    pub account_context_hash: Vec<u8>,
    /// Established account freshness.
    pub freshness: AccountFreshness,
}

/// Known-device authentication challenge.
#[derive(Debug, Clone, PartialEq, Eq)]
pub struct DeviceAuthChallenge {
    /// Device key identifier being authenticated.
    pub device_key_id: String,
    /// Server challenge bytes.
    pub server_challenge: Vec<u8>,
    /// Challenge expiry in Unix milliseconds.
    pub expires_at_unix_ms: u64,
    /// Canonical bytes the caller must sign.
    pub canonical_bytes: Vec<u8>,
}

/// Known-device authentication report.
#[derive(Debug, Clone, PartialEq, Eq)]
pub struct DeviceAuthReport {
    /// Device key identifier accepted by the service.
    pub device_key_id: String,
    /// Device state after authentication.
    pub state: DeviceState,
}

/// Report returned after close.
#[derive(Debug, Clone, Copy, PartialEq, Eq)]
pub struct CloseReport {
    /// Final session state.
    pub final_state: SessionState,
    /// Coarse close classification.
    pub classification: CloseClassification,
}

/// Explicit security artifacts for integrations that need channel binding.
#[derive(Debug, Clone, PartialEq, Eq)]
pub struct SecureChannelArtifacts {
    /// Secure-channel transcript binding, when available.
    pub handshake_hash: Option<Vec<u8>>,
    /// Additional channel-binding bytes, when available.
    pub channel_binding: Option<Vec<u8>>,
    /// Authenticated service Noise static public key, when available.
    pub service_static_public_key: Option<Vec<u8>>,
}

impl Default for SecureChannelArtifacts {
    fn default() -> (r: Self)
        ensures
            r.handshake_hash is None,
            r.channel_binding is None,
            r.service_static_public_key is None,
    {
        SecureChannelArtifacts {
            handshake_hash: None,
            channel_binding: None,
            service_static_public_key: None,
        }
    }
}

/// Error object exposed through generated foreign-language bindings: a
/// stable error class, a diagnostic message and the connect attempt trace.
#[derive(Debug)]
pub struct SecureTunnelError {
    kind: String,
    message: String,
    attempts: Vec<TransportAttemptReport>,
}

impl SecureTunnelError {
    /// The stable error class.
    pub closed spec fn kind_view(&self) -> Seq<char> {
        self.kind@
    }

    /// The diagnostic message.
    pub closed spec fn message_view(&self) -> Seq<char> {
        self.message@
    }

    /// The attempt trace.
    pub closed spec fn attempts_view(&self) -> Seq<TransportAttemptReport> {
        self.attempts@
    }

    /// An error with no attempt trace.
    pub fn new(kind: String, message: String) -> (e: Self)
        ensures
            e.kind_view() == kind@,
            e.message_view() == message@,
            e.attempts_view() == Seq::<TransportAttemptReport>::empty(),
    {
        SecureTunnelError { kind, message, attempts: Vec::new() }
    }

    /// An error carrying the attempt trace of a connect.
    pub fn with_attempts(kind: String, message: String, attempts: Vec<TransportAttemptReport>) -> (e:
        Self)
        ensures
            e.kind_view() == kind@,
            e.message_view() == message@,
            e.attempts_view() == attempts@,
    {
        SecureTunnelError { kind, message, attempts }
    }

    /// Returns the stable SDK error class.
    pub fn kind(&self) -> (s: String)
        ensures
            s@ == self.kind_view(),
    {
        self.kind.clone()
    }

    /// Returns the human-readable diagnostic message.
    pub fn message(&self) -> (s: String)
        ensures
            s@ == self.message_view(),
    {
        self.message.clone()
    }

    /// The display form of the error: its kind, a colon and a space, then
    /// its message.
    pub fn to_string(&self) -> (s: String)
        ensures
            s@ == self.kind_view() + ": "@ + self.message_view(),
    {
        let head = concat_str(self.kind.as_str(), ": ");
        concat_str(head.as_str(), self.message.as_str())
    }

    /// Returns the connect attempt trace attached to this error, if available.
    pub fn attempts(&self) -> (a: Vec<TransportAttemptReport>)
        ensures
            a@ == self.attempts_view(),
    {
        clone_attempt_reports(&self.attempts)
    }
}

/// An `Internal` error with `message`.
pub fn internal_error(message: String) -> (e: Arc<SecureTunnelError>)
    ensures
        e.kind_view() == "Internal"@,
        e.message_view() == message@,
        e.attempts_view() == Seq::<TransportAttemptReport>::empty(),
{
    Arc::new(SecureTunnelError::new("Internal".to_owned(), message))
}

/// An `InvalidConfig` error with `message`.
pub fn invalid_config(message: String) -> (e: Arc<SecureTunnelError>)
    ensures
        e.kind_view() == "InvalidConfig"@,
        e.message_view() == message@,
        e.attempts_view() == Seq::<TransportAttemptReport>::empty(),
{
    Arc::new(SecureTunnelError::new("InvalidConfig".to_owned(), message))
}


/// The root a generated-binding descriptor root denotes.
pub open spec fn ffi_anchor_view(a: DescriptorTrustAnchor) -> AnchorView {
    AnchorView { key_id: a.key_id@, algorithm: a.algorithm@, public_key: a.public_key@ }
}

/// Converts generated-binding descriptor roots, in order.
pub fn sdk_trust_anchors(anchors: &Vec<DescriptorTrustAnchor>) -> (r: Vec<TrustAnchor>)
    ensures
        r@.len() == anchors@.len(),
        forall|i: int| 0 <= i < anchors@.len() ==> (#[trigger] r@[i])@ == ffi_anchor_view(
            anchors@[i],
        ),
{
    let mut out: Vec<TrustAnchor> = Vec::new();
    let mut i: usize = 0;
    while i < anchors.len()
        invariant
            i <= anchors@.len(),
            out@.len() == i,
            forall|j: int| 0 <= j < i ==> (#[trigger] out@[j])@ == ffi_anchor_view(anchors@[j]),
        decreases anchors@.len() - i,
    {
        let a = &anchors[i];
        out.push(trust_anchor(&a.key_id, &a.algorithm, &a.public_key));
        i = i + 1;
    }
    out
}

/// The transport policy a generated-binding configuration carries.
pub open spec fn ffi_policy(config: ClientConfig) -> TransportPolicyConfig {
    TransportPolicyConfig {
        quic_reprobe_delay_seconds: config.quic_reprobe_delay_seconds,
        connect_timeout_ms: config.connect_timeout_ms,
        quic_connect_timeout_ms: config.quic_connect_timeout_ms,
        wss_connect_timeout_ms: config.wss_connect_timeout_ms,
        secure_ready_timeout_ms: config.secure_ready_timeout_ms,
        record_read_timeout_ms: config.record_read_timeout_ms,
        record_write_timeout_ms: config.record_write_timeout_ms,
    }
}

/// Settles the SDK client configuration of a generated-binding
/// configuration: timeouts, descriptor roots and pinned keys as given, and
/// the outer roots as given or none where the list is empty.
///
/// Fails with an `InvalidConfig` error carrying `PINNED_KEY_LENGTH_ERROR`
/// exactly when a pinned key is not 32 bytes long.
pub fn sdk_config(config: ClientConfig) -> (r: Result<SdkClientConfig, Arc<SecureTunnelError>>)
    ensures
        r is Ok <==> all_keys_32(config.pinned_service_static_public_keys@),
        r matches Err(e) ==> e.kind_view() == "InvalidConfig"@ && e.message_view()
            == PINNED_KEY_LENGTH_ERROR@ && e.attempts_view() == Seq::<
            TransportAttemptReport,
        >::empty(),
        r matches Ok(c) ==> {
            &&& c.transport_policy == Some(ffi_policy(config))
            &&& config.outer_root_certificates_der@.len() == 0 ==> c.outer_root_certificates_der
                is None
            &&& config.outer_root_certificates_der@.len() > 0 ==> c.outer_root_certificates_der
                == Some(config.outer_root_certificates_der)
            &&& c.descriptor_trust_anchors matches Some(anchors)
            &&& anchors@.len() == config.descriptor_trust_anchors@.len()
            &&& forall|i: int| 0 <= i < anchors@.len() ==> (#[trigger] anchors@[i])@
                == ffi_anchor_view(config.descriptor_trust_anchors@[i])
            &&& c.pinned_service_static_public_keys matches Some(keys)
            &&& keys_match(keys@, config.pinned_service_static_public_keys@)
        },
{
    let pinned = match pinned_keys(&config.pinned_service_static_public_keys) {
        Some(pinned) => pinned,
        None => return Err(invalid_config(PINNED_KEY_LENGTH_ERROR.to_owned())),
    };
    let policy = TransportPolicyConfig {
        quic_reprobe_delay_seconds: config.quic_reprobe_delay_seconds,
        connect_timeout_ms: config.connect_timeout_ms,
        quic_connect_timeout_ms: config.quic_connect_timeout_ms,
        wss_connect_timeout_ms: config.wss_connect_timeout_ms,
        secure_ready_timeout_ms: config.secure_ready_timeout_ms,
        record_read_timeout_ms: config.record_read_timeout_ms,
        record_write_timeout_ms: config.record_write_timeout_ms,
    };
    let anchors = sdk_trust_anchors(&config.descriptor_trust_anchors);
    Ok(
        SdkClientConfig {
            transport_policy: Some(policy),
            outer_root_certificates_der: outer_roots(config.outer_root_certificates_der),
            descriptor_trust_anchors: Some(anchors),
            pinned_service_static_public_keys: Some(pinned),
        },
    )
}

} // verus!

//! Session-level views that the selector and secure channel report upward.

use vstd::prelude::*;

use crate::transport::{CarrierKind, FallbackReason};

verus! {

/// Higher-layer view of a successful secure channel.
#[derive(Debug, Clone, Copy, PartialEq, Eq)]
pub struct SecureReadyReport {
    /// Outer carrier selected for this session.
    pub carrier: CarrierKind,
    /// Whether transport choice came from live probing or cached posture.
    pub cache_state: CacheDisposition,
    /// Normalized fallback reason, when fallback occurred.
    pub fallback_reason: Option<FallbackReason>,
}

/// Whether transport choice came from a live probe or cached posture.
#[derive(Debug, Clone, Copy, PartialEq, Eq)]
pub enum CacheDisposition {
    /// No cached network posture affected carrier choice.
    LiveProbe,
    /// Cached network posture skipped the initial `QUIC` attempt.
    CachedFallback,
    /// Cached posture had expired and `QUIC` was retried.
    Reprobe,
}

/// Secure-channel lifecycle state exposed above the transport adapters.
#[derive(Debug, Clone, Copy, PartialEq, Eq)]
pub enum SessionPhase {
    /// Outer carrier established and selector value confirmed.
    CarrierReady,
    /// Noise handshake and trust validation are in progress.
    NoiseHandshake,
    /// Noise transport mode is active.
    SecureReady,
    /// Account session is established inside Noise transport.
    AccountAuthenticated,
    /// Account session and known-device status are both established.
    KnownDeviceAuthenticated,
    /// Graceful encrypted shutdown is in progress.
    Closing,
}

/// Close directive that belongs in the core protocol, not the carrier.
#[derive(Debug, Clone, Copy, PartialEq, Eq)]
pub struct CloseDirective {
    /// Application-level reason code for encrypted close.
    pub code: u16,
    /// Whether the peer should try to drain before tearing down the carrier.
    pub drain: bool,
}

/// Handshake artifacts a secure-ready channel hands to later session work.
#[derive(Debug, PartialEq, Eq)]
pub struct SecureReadyArtifacts {
    /// Noise handshake hash, when the handshake exposes one.
    pub handshake_hash: Option<Vec<u8>>,
    /// Channel-binding bytes for later authentication.
    pub channel_binding: Option<Vec<u8>>,
    /// Authorized service Noise static public key used by the handshake.
    pub service_static_public_key: Option<Vec<u8>>,
}

} // verus!

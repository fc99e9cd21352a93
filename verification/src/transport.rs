//! Carrier kinds, transport targets, connect-plan candidates and the cached
//! network posture that transport policy keeps between attempts.

use vstd::prelude::*;

use crate::descriptor::{QuicTarget, WssTarget};

verus! {

/// Supported outer carriers in v1.
#[derive(Debug, Clone, Copy, PartialEq, Eq)]
pub enum CarrierKind {
    /// Raw `QUIC` over UDP.
    Quic,
    /// WebSocket over HTTPS.
    Wss,
}

impl CarrierKind {
    /// Stable lowercase spelling of the carrier.
    pub fn as_str(&self) -> (s: &'static str)
        ensures
            s@ == carrier_name(*self),
    {
        proof {
            reveal_strlit("quic");
            reveal_strlit("wss");
        }
        match self {
            CarrierKind::Quic => "quic",
            CarrierKind::Wss => "wss",
        }
    }

    /// True exactly when both values name the same carrier.
    pub fn same_as(&self, other: &CarrierKind) -> (b: bool)
        ensures
            b <==> *self == *other,
    {
        match (self, other) {
            (CarrierKind::Quic, CarrierKind::Quic) => true,
            (CarrierKind::Wss, CarrierKind::Wss) => true,
            _ => false,
        }
    }
}

/// Stable spelling of a carrier.
pub open spec fn carrier_name(carrier: CarrierKind) -> Seq<char> {
    match carrier {
        CarrierKind::Quic => seq!['q', 'u', 'i', 'c'],
        CarrierKind::Wss => seq!['w', 's', 's'],
    }
}

/// Fallback-eligible `QUIC` failure classes.
#[derive(Debug, Clone, Copy, PartialEq, Eq)]
pub enum FallbackReason {
    /// UDP path failure before the inner secure channel is ready.
    OuterPathFailure,
    /// `QUIC` capability or selector mismatch before the inner secure channel.
    OuterQuicRejected,
    /// `QUIC` closed before the inner secure channel reached `Secure Ready`.
    OuterQuicClosedEarly,
}

impl FallbackReason {
    /// Stable snake-case spelling of the reason.
    pub fn as_str(&self) -> (s: &'static str)
        ensures
            s@ == fallback_reason_name(*self),
    {
        proof {
            reveal_strlit("outer_path_failure");
            reveal_strlit("outer_quic_rejected");
            reveal_strlit("outer_quic_closed_early");
        }
        match self {
            FallbackReason::OuterPathFailure => "outer_path_failure",
            FallbackReason::OuterQuicRejected => "outer_quic_rejected",
            FallbackReason::OuterQuicClosedEarly => "outer_quic_closed_early",
        }
    }
}

/// Stable spelling of a fallback reason.
pub open spec fn fallback_reason_name(reason: FallbackReason) -> Seq<char> {
    match reason {
        FallbackReason::OuterPathFailure => "outer_path_failure"@,
        FallbackReason::OuterQuicRejected => "outer_quic_rejected"@,
        FallbackReason::OuterQuicClosedEarly => "outer_quic_closed_early"@,
    }
}

/// One concrete carrier target to attempt.
#[derive(Debug, PartialEq, Eq)]
pub enum TransportTarget {
    /// Raw `QUIC` carrier.
    Quic(QuicTarget),
    /// `WSS` carrier.
    Wss(WssTarget),
}

impl TransportTarget {
    /// The carrier a target uses.
    pub open spec fn carrier_spec(&self) -> CarrierKind {
        match self {
            TransportTarget::Quic(_) => CarrierKind::Quic,
            TransportTarget::Wss(_) => CarrierKind::Wss,
        }
    }

    /// Returns the carrier kind for the target.
    pub fn carrier(&self) -> (c: CarrierKind)
        ensures
            c == self.carrier_spec(),
    {
        match self {
            TransportTarget::Quic(_) => CarrierKind::Quic,
            TransportTarget::Wss(_) => CarrierKind::Wss,
        }
    }
}

impl Clone for TransportTarget {
    fn clone(&self) -> (r: Self)
        ensures
            r == *self,
    {
        match self {
            TransportTarget::Quic(t) => TransportTarget::Quic(t.clone()),
            TransportTarget::Wss(t) => TransportTarget::Wss(t.clone()),
        }
    }
}

/// Why one carrier target appears in the current connect plan.
#[derive(Debug, Clone, Copy, PartialEq, Eq)]
pub enum CandidateSource {
    /// The descriptor prefers this carrier on the current network.
    PreferredCarrier,
    /// The descriptor allows this carrier as a live fallback.
    FallbackCarrier,
    /// Cached network posture says to skip the first `QUIC` attempt for now.
    CachedQuicBadNetwork,
    /// Cached fallback posture expired and `QUIC` should be retried.
    QuicReprobeAfterCachedFallback,
}

/// One candidate target in the order the selector should attempt.
#[derive(Debug, PartialEq, Eq)]
pub struct TransportCandidate {
    /// Concrete target for the candidate carrier.
    pub target: TransportTarget,
    /// Why the candidate is in this position.
    pub source: CandidateSource,
}

impl Clone for TransportCandidate {
    fn clone(&self) -> (r: Self)
        ensures
            r == *self,
    {
        TransportCandidate { target: self.target.clone(), source: self.source }
    }
}

/// Coarse cached network posture that belongs to transport policy, not trust.
#[derive(Debug, Clone, Copy, PartialEq, Eq)]
pub struct TransportCacheSnapshot {
    /// Cached last successful carrier for this service and network class.
    pub last_successful_carrier: Option<CarrierKind>,
    /// Most recent `QUIC` failure that still permits `WSS` fallback.
    pub last_quic_failure: Option<FallbackReason>,
    /// Deadline after which `QUIC` should be reprobed on the same network.
    pub next_quic_probe_after_unix_seconds: Option<u64>,
    /// Highest descriptor serial accepted on this network.
    pub highest_descriptor_serial: Option<u64>,
}

impl Default for TransportCacheSnapshot {
    fn default() -> (r: Self)
        ensures
            r.last_successful_carrier is None,
            r.last_quic_failure is None,
            r.next_quic_probe_after_unix_seconds is None,
            r.highest_descriptor_serial is None,
    {
        TransportCacheSnapshot {
            last_successful_carrier: None,
            last_quic_failure: None,
            next_quic_probe_after_unix_seconds: None,
            highest_descriptor_serial: None,
        }
    }
}

} // verus!

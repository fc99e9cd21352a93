//! Error type shared by the transport-neutral API surface.

use vstd::prelude::*;

use crate::compat::{decimal_digits, format_u64};
use crate::text::concat_str;
use crate::transport::{CarrierKind, FallbackReason, carrier_name, fallback_reason_name};

verus! {

/// Error type shared by the initial transport-neutral API surface.
#[derive(Debug, Clone, Copy, PartialEq, Eq)]
pub enum ApiError {
    /// The descriptor is structurally inconsistent with the documented v1 shape.
    InvalidServiceDescriptor(&'static str),
    /// The descriptor or caller requested a carrier that is unavailable.
    UnavailableCarrier(CarrierKind),
    /// A record exceeded the documented v1 size budget.
    RecordTooLarge {
        /// Observed payload size.
        actual: usize,
        /// Configured v1 maximum payload size.
        max: usize,
    },
    /// The descriptor and cached network posture leave no valid transport plan.
    TransportPlanBlocked(&'static str),
    /// The caller did not provide a connector for a required carrier.
    MissingCarrierConnector(CarrierKind),
    /// The outer carrier failed in a way that still permits fallback.
    TransportFallback(FallbackReason),
    /// Secure-channel processing failed during the inner Noise handshake.
    InnerNoiseFailure,
    /// Secure-channel processing failed during server trust validation.
    InnerTrustFailure,
    /// Secure-channel processing failed after `Secure Ready`.
    PostHandshakeAuthFailure,
    /// The selector exhausted all transport candidates without success.
    TransportSelectionExhausted,
    /// The selector exhausted all transport candidates after a fallback-eligible `QUIC` failure.
    TransportSelectionExhaustedWithFallback(FallbackReason),
    /// The selector observed an impossible state transition.
    TransportSelectorInvariant(&'static str),
    /// The framed transport is already closed.
    TransportClosed,
}

/// How an error reads.
pub open spec fn api_error_message(e: ApiError) -> Seq<char> {
    match e {
        ApiError::InvalidServiceDescriptor(m) => "invalid service descriptor: "@ + m@,
        ApiError::UnavailableCarrier(c) => "carrier `"@ + carrier_name(c)
            + "` is not available in this descriptor"@,
        ApiError::RecordTooLarge { actual, max } => "record payload size "@ + decimal_digits(
            actual as nat,
        ) + " exceeds v1 limit "@ + decimal_digits(max as nat),
        ApiError::TransportPlanBlocked(m) => "transport planning is blocked: "@ + m@,
        ApiError::MissingCarrierConnector(c) => "carrier connector `"@ + carrier_name(c)
            + "` is not configured"@,
        ApiError::TransportFallback(r) => "transport attempt may fall back after `"@
            + fallback_reason_name(r) + "`"@,
        ApiError::InnerNoiseFailure => "secure-ready failed during the inner Noise handshake"@,
        ApiError::InnerTrustFailure => "secure-ready failed during trust validation"@,
        ApiError::PostHandshakeAuthFailure => "secure-ready failed during post-handshake authentication"@,
        ApiError::TransportSelectionExhausted => "transport selection exhausted all candidates"@,
        ApiError::TransportSelectionExhaustedWithFallback(r) => "transport selection exhausted all candidates after `"@
            + fallback_reason_name(r) + "`"@,
        ApiError::TransportSelectorInvariant(m) => "transport selector invariant violated: "@ + m@,
        ApiError::TransportClosed => "framed transport is closed"@,
    }
}

impl ApiError {
    /// How this error reads.
    pub fn message(&self) -> (s: String)
        ensures
            s@ == api_error_message(*self),
    {
        match self {
            ApiError::InvalidServiceDescriptor(m) => concat_str("invalid service descriptor: ", m),
            ApiError::UnavailableCarrier(c) => {
                let head = concat_str("carrier `", c.as_str());
                concat_str(head.as_str(), "` is not available in this descriptor")
            },
            ApiError::RecordTooLarge { actual, max } => {
                let actual_text = format_u64(*actual as u64);
                let max_text = format_u64(*max as u64);
                let head = concat_str("record payload size ", actual_text.as_str());
                let middle = concat_str(head.as_str(), " exceeds v1 limit ");
                concat_str(middle.as_str(), max_text.as_str())
            },
            ApiError::TransportPlanBlocked(m) => concat_str("transport planning is blocked: ", m),
            ApiError::MissingCarrierConnector(c) => {
                let head = concat_str("carrier connector `", c.as_str());
                concat_str(head.as_str(), "` is not configured")
            },
            ApiError::TransportFallback(r) => {
                let head = concat_str("transport attempt may fall back after `", r.as_str());
                concat_str(head.as_str(), "`")
            },
            ApiError::InnerNoiseFailure => "secure-ready failed during the inner Noise handshake".to_owned(),
            ApiError::InnerTrustFailure => "secure-ready failed during trust validation".to_owned(),
            ApiError::PostHandshakeAuthFailure => "secure-ready failed during post-handshake authentication".to_owned(),
            ApiError::TransportSelectionExhausted => "transport selection exhausted all candidates".to_owned(),
            ApiError::TransportSelectionExhaustedWithFallback(r) => {
                let head = concat_str(
                    "transport selection exhausted all candidates after `",
                    r.as_str(),
                );
                concat_str(head.as_str(), "`")
            },
            ApiError::TransportSelectorInvariant(m) => concat_str(
                "transport selector invariant violated: ",
                m,
            ),
            ApiError::TransportClosed => "framed transport is closed".to_owned(),
        }
    }
}

/// Result alias for the public API surface.
pub type ApiResult<T> = Result<T, ApiError>;

} // verus!

//! The scenarios of the local smoke and conformance harnesses, with their
//! stable spellings and the report rows that do not depend on a network.

use vstd::prelude::*;

use crate::codec::extend_bytes;
use crate::constants::QUIC_ALPN_V1;
use crate::text::str_eq;

verus! {

/// Smoke scenario covered by the local harness.
#[derive(Debug, Clone, Copy, PartialEq, Eq)]
pub enum SmokeScenario {
    /// Valid `QUIC` reaches `Secure Ready` directly.
    QuicSuccess,
    /// Broken `QUIC` falls back to valid `WSS`.
    WssFallback,
}

/// The stable CLI spelling of a smoke scenario.
pub open spec fn smoke_scenario_name(s: SmokeScenario) -> Seq<char> {
    match s {
        SmokeScenario::QuicSuccess => "quic-success"@,
        SmokeScenario::WssFallback => "wss-fallback"@,
    }
}

/// The snake-case spelling of a smoke scenario, also accepted.
pub open spec fn smoke_scenario_snake_name(s: SmokeScenario) -> Seq<char> {
    match s {
        SmokeScenario::QuicSuccess => "quic_success"@,
        SmokeScenario::WssFallback => "wss_fallback"@,
    }
}

/// The smoke scenario a spelling names, in kebab or snake case, trying each in order.
pub open spec fn smoke_scenario_named(value: Seq<char>) -> Option<SmokeScenario> {
    if value == "quic-success"@ || value == "quic_success"@ {
        Some(SmokeScenario::QuicSuccess)
    } else if value == "wss-fallback"@ || value == "wss_fallback"@ {
        Some(SmokeScenario::WssFallback)
    } else {
        None
    }
}

impl SmokeScenario {
    /// Returns the stable CLI spelling.
    pub fn as_str(self) -> (s: &'static str)
        ensures
            s@ == smoke_scenario_name(self),
    {
        match self {
            SmokeScenario::QuicSuccess => "quic-success",
            SmokeScenario::WssFallback => "wss-fallback",
        }
    }

    /// The smoke scenario a spelling names, in kebab or snake case.
    pub fn from_name(value: &str) -> (r: Option<Self>)
        ensures
            r == smoke_scenario_named(value@),
    {
        if str_eq(value, "quic-success") || str_eq(value, "quic_success") {
            return Some(SmokeScenario::QuicSuccess);
        }
        if str_eq(value, "wss-fallback") || str_eq(value, "wss_fallback") {
            return Some(SmokeScenario::WssFallback);
        }
        None
    }
}

/// Conformance scenario covered by the local harness.
#[derive(Debug, Clone, Copy, PartialEq, Eq)]
pub enum ConformanceScenario {
    /// Valid `QUIC` reaches `Secure Ready`.
    QuicSuccess,
    /// `QUIC` ALPN rejection falls back to `WSS`.
    QuicRejectedWssFallback,
    /// Cached `QUIC`-bad posture attempts `WSS` first.
    CachedQuicBadWssFirst,
    /// Fallback disabled fails after the `QUIC` rejection.
    FallbackDisabled,
    /// Wrong pinned service static key fails before dialing.
    WrongServiceStaticKeyPin,
    /// Wrong descriptor trust anchor fails before dialing.
    WrongDescriptorTrustAnchor,
    /// Expired descriptor fails before dialing.
    ExpiredDescriptor,
    /// Descriptor rollback fails before dialing.
    DescriptorRollback,
    /// Authorized service key rotation succeeds.
    ServiceKeyRotationValid,
    /// Unauthorized service key rotation fails.
    ServiceKeyRotationInvalid,
    /// Stale known-device challenge fails.
    StaleDeviceChallenge,
    /// Replayed known-device challenge fails.
    ReplayedDeviceChallenge,
    /// Encrypted close is classified as graceful.
    GracefulClose,
    /// Custom outer TLS roots allow direct `QUIC`.
    CustomCaQuicSuccess,
    /// Custom outer TLS roots allow cached `WSS` first.
    CustomCaWssSuccess,
    /// Custom outer TLS roots compose with `QUIC` to `WSS` fallback.
    CustomCaQuicRejectedWssFallback,
    /// Custom outer TLS roots do not bypass inner service trust.
    CustomCaInnerTrustFailure,
    /// Wrong custom outer TLS roots surface as SDK outer TLS failure.
    CustomCaWrongRootTlsFailure,
    /// Explicit HTTP proxy carries the outer `WSS` connection.
    ProxiedWss,
}

/// The stable CLI spelling of a conformance scenario.
pub open spec fn conformance_scenario_name(s: ConformanceScenario) -> Seq<char> {
    match s {
        ConformanceScenario::QuicSuccess => "quic-success"@,
        ConformanceScenario::QuicRejectedWssFallback => "quic-rejected-wss-fallback"@,
        ConformanceScenario::CachedQuicBadWssFirst => "cached-quic-bad-wss-first"@,
        ConformanceScenario::FallbackDisabled => "fallback-disabled"@,
        ConformanceScenario::WrongServiceStaticKeyPin => "wrong-service-static-key-pin"@,
        ConformanceScenario::WrongDescriptorTrustAnchor => "wrong-descriptor-trust-anchor"@,
        ConformanceScenario::ExpiredDescriptor => "expired-descriptor"@,
        ConformanceScenario::DescriptorRollback => "descriptor-rollback"@,
        ConformanceScenario::ServiceKeyRotationValid => "service-key-rotation-valid"@,
        ConformanceScenario::ServiceKeyRotationInvalid => "service-key-rotation-invalid"@,
        ConformanceScenario::StaleDeviceChallenge => "stale-device-challenge"@,
        ConformanceScenario::ReplayedDeviceChallenge => "replayed-device-challenge"@,
        ConformanceScenario::GracefulClose => "graceful-close"@,
        ConformanceScenario::CustomCaQuicSuccess => "custom-ca-quic-success"@,
        ConformanceScenario::CustomCaWssSuccess => "custom-ca-wss-success"@,
        ConformanceScenario::CustomCaQuicRejectedWssFallback => "custom-ca-quic-rejected-wss-fallback"@,
        ConformanceScenario::CustomCaInnerTrustFailure => "custom-ca-inner-trust-failure"@,
        ConformanceScenario::CustomCaWrongRootTlsFailure => "custom-ca-wrong-root-tls-failure"@,
        ConformanceScenario::ProxiedWss => "proxied-wss"@,
    }
}

/// The snake-case spelling of a conformance scenario, also accepted.
pub open spec fn conformance_scenario_snake_name(s: ConformanceScenario) -> Seq<char> {
    match s {
        ConformanceScenario::QuicSuccess => "quic_success"@,
        ConformanceScenario::QuicRejectedWssFallback => "quic_rejected_wss_fallback"@,
        ConformanceScenario::CachedQuicBadWssFirst => "cached_quic_bad_wss_first"@,
        ConformanceScenario::FallbackDisabled => "fallback_disabled"@,
        ConformanceScenario::WrongServiceStaticKeyPin => "wrong_service_static_key_pin"@,
        ConformanceScenario::WrongDescriptorTrustAnchor => "wrong_descriptor_trust_anchor"@,
        ConformanceScenario::ExpiredDescriptor => "expired_descriptor"@,
        ConformanceScenario::DescriptorRollback => "descriptor_rollback"@,
        ConformanceScenario::ServiceKeyRotationValid => "service_key_rotation_valid"@,
        ConformanceScenario::ServiceKeyRotationInvalid => "service_key_rotation_invalid"@,
        ConformanceScenario::StaleDeviceChallenge => "stale_device_challenge"@,
        ConformanceScenario::ReplayedDeviceChallenge => "replayed_device_challenge"@,
        ConformanceScenario::GracefulClose => "graceful_close"@,
        ConformanceScenario::CustomCaQuicSuccess => "custom_ca_quic_success"@,
        ConformanceScenario::CustomCaWssSuccess => "custom_ca_wss_success"@,
        ConformanceScenario::CustomCaQuicRejectedWssFallback => "custom_ca_quic_rejected_wss_fallback"@,
        ConformanceScenario::CustomCaInnerTrustFailure => "custom_ca_inner_trust_failure"@,
        ConformanceScenario::CustomCaWrongRootTlsFailure => "custom_ca_wrong_root_tls_failure"@,
        ConformanceScenario::ProxiedWss => "proxied_wss"@,
    }
}

/// The conformance scenario a spelling names, in kebab or snake case, trying each in order.
pub open spec fn conformance_scenario_named(value: Seq<char>) -> Option<ConformanceScenario> {
    if value == "quic-success"@ || value == "quic_success"@ {
        Some(ConformanceScenario::QuicSuccess)
    } else if value == "quic-rejected-wss-fallback"@ || value == "quic_rejected_wss_fallback"@ {
        Some(ConformanceScenario::QuicRejectedWssFallback)
    } else if value == "cached-quic-bad-wss-first"@ || value == "cached_quic_bad_wss_first"@ {
        Some(ConformanceScenario::CachedQuicBadWssFirst)
    } else if value == "fallback-disabled"@ || value == "fallback_disabled"@ {
        Some(ConformanceScenario::FallbackDisabled)
    } else if value == "wrong-service-static-key-pin"@ || value == "wrong_service_static_key_pin"@ {
        Some(ConformanceScenario::WrongServiceStaticKeyPin)
    } else if value == "wrong-descriptor-trust-anchor"@ || value == "wrong_descriptor_trust_anchor"@ {
        Some(ConformanceScenario::WrongDescriptorTrustAnchor)
    } else if value == "expired-descriptor"@ || value == "expired_descriptor"@ {
        Some(ConformanceScenario::ExpiredDescriptor)
    } else if value == "descriptor-rollback"@ || value == "descriptor_rollback"@ {
        Some(ConformanceScenario::DescriptorRollback)
    } else if value == "service-key-rotation-valid"@ || value == "service_key_rotation_valid"@ {
        Some(ConformanceScenario::ServiceKeyRotationValid)
    } else if value == "service-key-rotation-invalid"@ || value == "service_key_rotation_invalid"@ {
        Some(ConformanceScenario::ServiceKeyRotationInvalid)
    } else if value == "stale-device-challenge"@ || value == "stale_device_challenge"@ {
        Some(ConformanceScenario::StaleDeviceChallenge)
    } else if value == "replayed-device-challenge"@ || value == "replayed_device_challenge"@ {
        Some(ConformanceScenario::ReplayedDeviceChallenge)
    } else if value == "graceful-close"@ || value == "graceful_close"@ {
        Some(ConformanceScenario::GracefulClose)
    } else if value == "custom-ca-quic-success"@ || value == "custom_ca_quic_success"@ {
        Some(ConformanceScenario::CustomCaQuicSuccess)
    } else if value == "custom-ca-wss-success"@ || value == "custom_ca_wss_success"@ {
        Some(ConformanceScenario::CustomCaWssSuccess)
    } else if value == "custom-ca-quic-rejected-wss-fallback"@ || value == "custom_ca_quic_rejected_wss_fallback"@ {
        Some(ConformanceScenario::CustomCaQuicRejectedWssFallback)
    } else if value == "custom-ca-inner-trust-failure"@ || value == "custom_ca_inner_trust_failure"@ {
        Some(ConformanceScenario::CustomCaInnerTrustFailure)
    } else if value == "custom-ca-wrong-root-tls-failure"@ || value == "custom_ca_wrong_root_tls_failure"@ {
        Some(ConformanceScenario::CustomCaWrongRootTlsFailure)
    } else if value == "proxied-wss"@ || value == "proxied_wss"@ {
        Some(ConformanceScenario::ProxiedWss)
    } else {
        None
    }
}

impl ConformanceScenario {
    /// Returns the stable CLI spelling.
    pub fn as_str(self) -> (s: &'static str)
        ensures
            s@ == conformance_scenario_name(self),
    {
        match self {
            ConformanceScenario::QuicSuccess => "quic-success",
            ConformanceScenario::QuicRejectedWssFallback => "quic-rejected-wss-fallback",
            ConformanceScenario::CachedQuicBadWssFirst => "cached-quic-bad-wss-first",
            ConformanceScenario::FallbackDisabled => "fallback-disabled",
            ConformanceScenario::WrongServiceStaticKeyPin => "wrong-service-static-key-pin",
            ConformanceScenario::WrongDescriptorTrustAnchor => "wrong-descriptor-trust-anchor",
            ConformanceScenario::ExpiredDescriptor => "expired-descriptor",
            ConformanceScenario::DescriptorRollback => "descriptor-rollback",
            ConformanceScenario::ServiceKeyRotationValid => "service-key-rotation-valid",
            ConformanceScenario::ServiceKeyRotationInvalid => "service-key-rotation-invalid",
            ConformanceScenario::StaleDeviceChallenge => "stale-device-challenge",
            ConformanceScenario::ReplayedDeviceChallenge => "replayed-device-challenge",
            ConformanceScenario::GracefulClose => "graceful-close",
            ConformanceScenario::CustomCaQuicSuccess => "custom-ca-quic-success",
            ConformanceScenario::CustomCaWssSuccess => "custom-ca-wss-success",
            ConformanceScenario::CustomCaQuicRejectedWssFallback => "custom-ca-quic-rejected-wss-fallback",
            ConformanceScenario::CustomCaInnerTrustFailure => "custom-ca-inner-trust-failure",
            ConformanceScenario::CustomCaWrongRootTlsFailure => "custom-ca-wrong-root-tls-failure",
            ConformanceScenario::ProxiedWss => "proxied-wss",
        }
    }

    /// The conformance scenario a spelling names, in kebab or snake case.
    pub fn from_name(value: &str) -> (r: Option<Self>)
        ensures
            r == conformance_scenario_named(value@),
    {
        if str_eq(value, "quic-success") || str_eq(value, "quic_success") {
            return Some(ConformanceScenario::QuicSuccess);
        }
        if str_eq(value, "quic-rejected-wss-fallback") || str_eq(value, "quic_rejected_wss_fallback") {
            return Some(ConformanceScenario::QuicRejectedWssFallback);
        }
        if str_eq(value, "cached-quic-bad-wss-first") || str_eq(value, "cached_quic_bad_wss_first") {
            return Some(ConformanceScenario::CachedQuicBadWssFirst);
        }
        if str_eq(value, "fallback-disabled") || str_eq(value, "fallback_disabled") {
            return Some(ConformanceScenario::FallbackDisabled);
        }
        if str_eq(value, "wrong-service-static-key-pin") || str_eq(value, "wrong_service_static_key_pin") {
            return Some(ConformanceScenario::WrongServiceStaticKeyPin);
        }
        if str_eq(value, "wrong-descriptor-trust-anchor") || str_eq(value, "wrong_descriptor_trust_anchor") {
            return Some(ConformanceScenario::WrongDescriptorTrustAnchor);
        }
        if str_eq(value, "expired-descriptor") || str_eq(value, "expired_descriptor") {
            return Some(ConformanceScenario::ExpiredDescriptor);
        }
        if str_eq(value, "descriptor-rollback") || str_eq(value, "descriptor_rollback") {
            return Some(ConformanceScenario::DescriptorRollback);
        }
        if str_eq(value, "service-key-rotation-valid") || str_eq(value, "service_key_rotation_valid") {
            return Some(ConformanceScenario::ServiceKeyRotationValid);
        }
        if str_eq(value, "service-key-rotation-invalid") || str_eq(value, "service_key_rotation_invalid") {
            return Some(ConformanceScenario::ServiceKeyRotationInvalid);
        }
        if str_eq(value, "stale-device-challenge") || str_eq(value, "stale_device_challenge") {
            return Some(ConformanceScenario::StaleDeviceChallenge);
        }
        if str_eq(value, "replayed-device-challenge") || str_eq(value, "replayed_device_challenge") {
            return Some(ConformanceScenario::ReplayedDeviceChallenge);
        }
        if str_eq(value, "graceful-close") || str_eq(value, "graceful_close") {
            return Some(ConformanceScenario::GracefulClose);
        }
        if str_eq(value, "custom-ca-quic-success") || str_eq(value, "custom_ca_quic_success") {
            return Some(ConformanceScenario::CustomCaQuicSuccess);
        }
        if str_eq(value, "custom-ca-wss-success") || str_eq(value, "custom_ca_wss_success") {
            return Some(ConformanceScenario::CustomCaWssSuccess);
        }
        if str_eq(value, "custom-ca-quic-rejected-wss-fallback") || str_eq(value, "custom_ca_quic_rejected_wss_fallback") {
            return Some(ConformanceScenario::CustomCaQuicRejectedWssFallback);
        }
        if str_eq(value, "custom-ca-inner-trust-failure") || str_eq(value, "custom_ca_inner_trust_failure") {
            return Some(ConformanceScenario::CustomCaInnerTrustFailure);
        }
        if str_eq(value, "custom-ca-wrong-root-tls-failure") || str_eq(value, "custom_ca_wrong_root_tls_failure") {
            return Some(ConformanceScenario::CustomCaWrongRootTlsFailure);
        }
        if str_eq(value, "proxied-wss") || str_eq(value, "proxied_wss") {
            return Some(ConformanceScenario::ProxiedWss);
        }
        None
    }
}

/// The conformance scenario a smoke scenario corresponds to.
pub open spec fn conformance_for_smoke(value: SmokeScenario) -> ConformanceScenario {
    match value {
        SmokeScenario::QuicSuccess => ConformanceScenario::QuicSuccess,
        SmokeScenario::WssFallback => ConformanceScenario::QuicRejectedWssFallback,
    }
}

/// The ALPN identifiers the loopback `QUIC` server offers in a smoke
/// scenario: the v1 identifier where `QUIC` is meant to succeed, and a
/// foreign one where the client must fall back to `WSS`.
pub open spec fn smoke_quic_alpn(scenario: SmokeScenario) -> Seq<char> {
    match scenario {
        SmokeScenario::QuicSuccess => QUIC_ALPN_V1@,
        SmokeScenario::WssFallback => "wrong-alpn"@,
    }
}

impl SmokeScenario {
    /// The ALPN the loopback `QUIC` server offers in this scenario, as bytes.
    pub fn quic_server_alpn(&self) -> (alpn: Vec<u8>)
        ensures
            alpn@ == vstd::utf8::encode_utf8(smoke_quic_alpn(*self)),
    {
        let text: &str = match self {
            SmokeScenario::QuicSuccess => QUIC_ALPN_V1,
            SmokeScenario::WssFallback => "wrong-alpn",
        };
        let mut alpn: Vec<u8> = Vec::new();
        extend_bytes(&mut alpn, text.as_bytes());
        alpn
    }
}

/// A scenario name the harness does not know, with the harness's message.
#[derive(Debug, Clone, Copy, PartialEq, Eq)]
pub struct UnknownScenario(pub &'static str);

impl std::str::FromStr for SmokeScenario {
    type Err = UnknownScenario;

    fn from_str(value: &str) -> (r: Result<Self, UnknownScenario>)
        ensures
            r == match smoke_scenario_named(value@) {
                Some(s) => Ok::<SmokeScenario, UnknownScenario>(s),
                None => Err(UnknownScenario("unknown smoke scenario")),
            },
    {
        match SmokeScenario::from_name(value) {
            Some(scenario) => Ok(scenario),
            None => Err(UnknownScenario("unknown smoke scenario")),
        }
    }
}

impl std::str::FromStr for ConformanceScenario {
    type Err = UnknownScenario;

    fn from_str(value: &str) -> (r: Result<Self, UnknownScenario>)
        ensures
            r == match conformance_scenario_named(value@) {
                Some(s) => Ok::<ConformanceScenario, UnknownScenario>(s),
                None => Err(UnknownScenario("unknown conformance scenario")),
            },
    {
        match ConformanceScenario::from_name(value) {
            Some(scenario) => Ok(scenario),
            None => Err(UnknownScenario("unknown conformance scenario")),
        }
    }
}

impl From<SmokeScenario> for ConformanceScenario {
    fn from(value: SmokeScenario) -> (r: Self) {
        match value {
            SmokeScenario::QuicSuccess => ConformanceScenario::QuicSuccess,
            SmokeScenario::WssFallback => ConformanceScenario::QuicRejectedWssFallback,
        }
    }
}

impl vstd::std_specs::convert::FromSpecImpl<SmokeScenario> for ConformanceScenario {
    open spec fn obeys_from_spec() -> bool {
        true
    }

    open spec fn from_spec(v: SmokeScenario) -> ConformanceScenario {
        conformance_for_smoke(v)
    }
}

/// The conformance scenarios the harness implements, in the order it runs them.
pub open spec fn current_scenarios_spec() -> Seq<ConformanceScenario> {
    seq![
        ConformanceScenario::QuicSuccess,
        ConformanceScenario::QuicRejectedWssFallback,
        ConformanceScenario::CachedQuicBadWssFirst,
        ConformanceScenario::FallbackDisabled,
        ConformanceScenario::WrongServiceStaticKeyPin,
        ConformanceScenario::WrongDescriptorTrustAnchor,
        ConformanceScenario::ExpiredDescriptor,
        ConformanceScenario::DescriptorRollback,
        ConformanceScenario::ServiceKeyRotationValid,
        ConformanceScenario::ServiceKeyRotationInvalid,
        ConformanceScenario::StaleDeviceChallenge,
        ConformanceScenario::ReplayedDeviceChallenge,
        ConformanceScenario::GracefulClose,
        ConformanceScenario::CustomCaQuicSuccess,
        ConformanceScenario::CustomCaWssSuccess,
        ConformanceScenario::CustomCaQuicRejectedWssFallback,
        ConformanceScenario::CustomCaInnerTrustFailure,
        ConformanceScenario::CustomCaWrongRootTlsFailure,
        ConformanceScenario::ProxiedWss,
    ]
}

/// Returns the conformance scenarios the harness implements, in order.
pub fn current_conformance_scenarios() -> (r: Vec<ConformanceScenario>)
    ensures
        r@ == current_scenarios_spec(),
{
    let mut r: Vec<ConformanceScenario> = Vec::new();
    r.push(ConformanceScenario::QuicSuccess);
    r.push(ConformanceScenario::QuicRejectedWssFallback);
    r.push(ConformanceScenario::CachedQuicBadWssFirst);
    r.push(ConformanceScenario::FallbackDisabled);
    r.push(ConformanceScenario::WrongServiceStaticKeyPin);
    r.push(ConformanceScenario::WrongDescriptorTrustAnchor);
    r.push(ConformanceScenario::ExpiredDescriptor);
    r.push(ConformanceScenario::DescriptorRollback);
    r.push(ConformanceScenario::ServiceKeyRotationValid);
    r.push(ConformanceScenario::ServiceKeyRotationInvalid);
    r.push(ConformanceScenario::StaleDeviceChallenge);
    r.push(ConformanceScenario::ReplayedDeviceChallenge);
    r.push(ConformanceScenario::GracefulClose);
    r.push(ConformanceScenario::CustomCaQuicSuccess);
    r.push(ConformanceScenario::CustomCaWssSuccess);
    r.push(ConformanceScenario::CustomCaQuicRejectedWssFallback);
    r.push(ConformanceScenario::CustomCaInnerTrustFailure);
    r.push(ConformanceScenario::CustomCaWrongRootTlsFailure);
    r.push(ConformanceScenario::ProxiedWss);
    assert(r@ =~= current_scenarios_spec());
    r
}

/// Conformance row that is defined but blocked by follow-up implementation.
#[derive(Debug, Clone, PartialEq, Eq)]
pub struct PendingConformanceReport {
    /// Stable scenario name.
    pub scenario: String,
    /// Why this row is pending.
    pub reason: String,
}

/// The reason both pending close rows give.
pub open spec fn close_fixture_reason() -> Seq<char> {
    "requires close-failure fixture beyond current local server"@
}

/// The rows the conformance suite defines but cannot run yet: abrupt and
/// truncated close.
pub fn pending_rows() -> (r: Vec<PendingConformanceReport>)
    ensures
        r@.len() == 2,
        r@[0].scenario@ == "abrupt-close"@,
        r@[1].scenario@ == "truncated-close"@,
        r@[0].reason@ == close_fixture_reason(),
        r@[1].reason@ == close_fixture_reason(),
{
    let mut r: Vec<PendingConformanceReport> = Vec::new();
    r.push(
        PendingConformanceReport {
            scenario: "abrupt-close".to_owned(),
            reason: "requires close-failure fixture beyond current local server".to_owned(),
        },
    );
    r.push(
        PendingConformanceReport {
            scenario: "truncated-close".to_owned(),
            reason: "requires close-failure fixture beyond current local server".to_owned(),
        },
    );
    r
}

/// JSON fixture consumed by generated-language smoke clients.
#[derive(Debug, Clone, PartialEq, Eq)]
pub struct BindingFixtureReport {
    /// Service descriptor JSON for the loopback server.
    pub descriptor_json: String,
    /// DER-encoded outer TLS roots, base64 encoded for portable clients.
    pub outer_root_certificates_der_b64: Vec<String>,
    /// Accepted service static public keys, base64 encoded for portable clients.
    pub pinned_service_static_public_keys_b64: Vec<String>,
    /// Timestamp clients should use for deterministic descriptor validation.
    pub now_unix_seconds: u64,
    /// Request payload the local server echoes through the secure application path.
    pub smoke_ping_b64: String,
    /// Expected response payload.
    pub smoke_pong_b64: String,
}

/// Every smoke scenario is named back by its CLI spelling and by its snake-case
/// spelling.
pub proof fn lemma_smoke_scenario_spellings_round_trip(s: SmokeScenario)
    ensures
        smoke_scenario_named(smoke_scenario_name(s)) == Some(s),
        smoke_scenario_named(smoke_scenario_snake_name(s)) == Some(s),
{
    reveal_strlit("quic-success");
    reveal_strlit("wss-fallback");
    reveal_strlit("quic_success");
    reveal_strlit("wss_fallback");
    assert("quic-success"@.len() == 12);
    assert("quic-success"@[0] == 'q');
    assert("wss-fallback"@.len() == 12);
    assert("wss-fallback"@[0] == 'w');
    assert("quic_success"@.len() == 12);
    assert("quic_success"@[0] == 'q');
    assert("wss_fallback"@.len() == 12);
    assert("wss_fallback"@[0] == 'w');
    match s {
        SmokeScenario::QuicSuccess => {},
        SmokeScenario::WssFallback => {},
    }
}

/// Every conformance scenario is named back by its CLI spelling and by its snake-case
/// spelling.
pub proof fn lemma_conformance_scenario_spellings_round_trip(s: ConformanceScenario)
    ensures
        conformance_scenario_named(conformance_scenario_name(s)) == Some(s),
        conformance_scenario_named(conformance_scenario_snake_name(s)) == Some(s),
{
    reveal_strlit("quic-success");
    reveal_strlit("quic-rejected-wss-fallback");
    reveal_strlit("cached-quic-bad-wss-first");
    reveal_strlit("fallback-disabled");
    reveal_strlit("wrong-service-static-key-pin");
    reveal_strlit("wrong-descriptor-trust-anchor");
    reveal_strlit("expired-descriptor");
    reveal_strlit("descriptor-rollback");
    reveal_strlit("service-key-rotation-valid");
    reveal_strlit("service-key-rotation-invalid");
    reveal_strlit("stale-device-challenge");
    reveal_strlit("replayed-device-challenge");
    reveal_strlit("graceful-close");
    reveal_strlit("custom-ca-quic-success");
    reveal_strlit("custom-ca-wss-success");
    reveal_strlit("custom-ca-quic-rejected-wss-fallback");
    reveal_strlit("custom-ca-inner-trust-failure");
    reveal_strlit("custom-ca-wrong-root-tls-failure");
    reveal_strlit("proxied-wss");
    reveal_strlit("quic_success");
    reveal_strlit("quic_rejected_wss_fallback");
    reveal_strlit("cached_quic_bad_wss_first");
    reveal_strlit("fallback_disabled");
    reveal_strlit("wrong_service_static_key_pin");
    reveal_strlit("wrong_descriptor_trust_anchor");
    reveal_strlit("expired_descriptor");
    reveal_strlit("descriptor_rollback");
    reveal_strlit("service_key_rotation_valid");
    reveal_strlit("service_key_rotation_invalid");
    reveal_strlit("stale_device_challenge");
    reveal_strlit("replayed_device_challenge");
    reveal_strlit("graceful_close");
    reveal_strlit("custom_ca_quic_success");
    reveal_strlit("custom_ca_wss_success");
    reveal_strlit("custom_ca_quic_rejected_wss_fallback");
    reveal_strlit("custom_ca_inner_trust_failure");
    reveal_strlit("custom_ca_wrong_root_tls_failure");
    reveal_strlit("proxied_wss");
    assert("quic-success"@.len() == 12);
    assert("quic-rejected-wss-fallback"@.len() == 26);
    assert("quic-rejected-wss-fallback"@[0] == 'q');
    assert("cached-quic-bad-wss-first"@.len() == 25);
    assert("cached-quic-bad-wss-first"@[0] == 'c');
    assert("fallback-disabled"@.len() == 17);
    assert("wrong-service-static-key-pin"@.len() == 28);
    assert("wrong-service-static-key-pin"@[0] == 'w');
    assert("wrong-descriptor-trust-anchor"@.len() == 29);
    assert("wrong-descriptor-trust-anchor"@[0] == 'w');
    assert("expired-descriptor"@.len() == 18);
    assert("descriptor-rollback"@.len() == 19);
    assert("service-key-rotation-valid"@.len() == 26);
    assert("service-key-rotation-valid"@[0] == 's');
    assert("service-key-rotation-invalid"@.len() == 28);
    assert("service-key-rotation-invalid"@[0] == 's');
    assert("stale-device-challenge"@.len() == 22);
    assert("stale-device-challenge"@[0] == 's');
    assert("replayed-device-challenge"@.len() == 25);
    assert("replayed-device-challenge"@[0] == 'r');
    assert("graceful-close"@.len() == 14);
    assert("custom-ca-quic-success"@.len() == 22);
    assert("custom-ca-quic-success"@[0] == 'c');
    assert("custom-ca-wss-success"@.len() == 21);
    assert("custom-ca-quic-rejected-wss-fallback"@.len() == 36);
    assert("custom-ca-inner-trust-failure"@.len() == 29);
    assert("custom-ca-inner-trust-failure"@[0] == 'c');
    assert("custom-ca-wrong-root-tls-failure"@.len() == 32);
    assert("proxied-wss"@.len() == 11);
    assert("quic_success"@.len() == 12);
    assert("quic_rejected_wss_fallback"@.len() == 26);
    assert("quic_rejected_wss_fallback"@[0] == 'q');
    assert("cached_quic_bad_wss_first"@.len() == 25);
    assert("cached_quic_bad_wss_first"@[0] == 'c');
    assert("fallback_disabled"@.len() == 17);
    assert("wrong_service_static_key_pin"@.len() == 28);
    assert("wrong_service_static_key_pin"@[0] == 'w');
    assert("wrong_descriptor_trust_anchor"@.len() == 29);
    assert("wrong_descriptor_trust_anchor"@[0] == 'w');
    assert("expired_descriptor"@.len() == 18);
    assert("descriptor_rollback"@.len() == 19);
    assert("service_key_rotation_valid"@.len() == 26);
    assert("service_key_rotation_valid"@[0] == 's');
    assert("service_key_rotation_invalid"@.len() == 28);
    assert("service_key_rotation_invalid"@[0] == 's');
    assert("stale_device_challenge"@.len() == 22);
    assert("stale_device_challenge"@[0] == 's');
    assert("replayed_device_challenge"@.len() == 25);
    assert("replayed_device_challenge"@[0] == 'r');
    assert("graceful_close"@.len() == 14);
    assert("custom_ca_quic_success"@.len() == 22);
    assert("custom_ca_quic_success"@[0] == 'c');
    assert("custom_ca_wss_success"@.len() == 21);
    assert("custom_ca_quic_rejected_wss_fallback"@.len() == 36);
    assert("custom_ca_inner_trust_failure"@.len() == 29);
    assert("custom_ca_inner_trust_failure"@[0] == 'c');
    assert("custom_ca_wrong_root_tls_failure"@.len() == 32);
    assert("proxied_wss"@.len() == 11);
    match s {
        ConformanceScenario::QuicSuccess => {},
        ConformanceScenario::QuicRejectedWssFallback => {},
        ConformanceScenario::CachedQuicBadWssFirst => {},
        ConformanceScenario::FallbackDisabled => {},
        ConformanceScenario::WrongServiceStaticKeyPin => {},
        ConformanceScenario::WrongDescriptorTrustAnchor => {},
        ConformanceScenario::ExpiredDescriptor => {},
        ConformanceScenario::DescriptorRollback => {},
        ConformanceScenario::ServiceKeyRotationValid => {},
        ConformanceScenario::ServiceKeyRotationInvalid => {},
        ConformanceScenario::StaleDeviceChallenge => {},
        ConformanceScenario::ReplayedDeviceChallenge => {},
        ConformanceScenario::GracefulClose => {},
        ConformanceScenario::CustomCaQuicSuccess => {},
        ConformanceScenario::CustomCaWssSuccess => {},
        ConformanceScenario::CustomCaQuicRejectedWssFallback => {},
        ConformanceScenario::CustomCaInnerTrustFailure => {},
        ConformanceScenario::CustomCaWrongRootTlsFailure => {},
        ConformanceScenario::ProxiedWss => {},
    }
}

} // verus!

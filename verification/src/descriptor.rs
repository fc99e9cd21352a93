//! The v1 service descriptor: its data, its structural validation, and the
//! ordered connect plan it yields for the current network posture.

use vstd::prelude::*;

use crate::constants::{NOISE_SUITE_V1, PROTOCOL_ID_V1, QUIC_ALPN_V1, WSS_SUBPROTOCOL_V1};
use crate::error::{ApiError, ApiResult};
use crate::inner_context::{
    base64_32, nonzero, parse_service_static_public_key, parse_signed_descriptor_hash,
};
use crate::text::{has_white_space, is_blank, is_white_space, str_eq, str_is_blank, char_is_whitespace};
use crate::descriptor_auth::{
    authorization_error, authorize_descriptor_at, sign_example_descriptor, signed_by_example,
    validate_descriptor_window, window_error, body_error_with, example_anchor_view,
    example_body_hash,
};
use crate::inner_context::{
    InnerChannelContext, fits_u16, prologue_for, public_label_ok, NoisePublicKey, DescriptorHash,
};
use crate::trust::{parse_verifying_key, verifying_key_ok};
use crate::transport::{
    CandidateSource, CarrierKind, TransportCacheSnapshot, TransportCandidate, TransportTarget,
};

verus! {

/// One logical descriptor with per-carrier targets.
#[derive(Debug, PartialEq, Eq)]
pub struct ServiceDescriptor {
    /// Descriptor schema version.
    pub descriptor_version: u16,
    /// Monotonic descriptor instance version for one logical service.
    pub descriptor_serial: u64,
    /// RFC 3339 timestamp for the start of the validity window.
    pub not_before: String,
    /// RFC 3339 timestamp for the end of the validity window.
    pub not_after: String,
    /// Stable environment identifier.
    pub environment_id: String,
    /// Stable logical service identifier.
    pub service_id: String,
    /// Stable inner service authority bound into the Noise prologue.
    pub service_authority: String,
    /// Expected inner protocol identifier.
    pub protocol_id: String,
    /// Expected Noise suite identifier.
    pub noise_suite: String,
    /// Authorized service Noise static public key, base64-encoded.
    pub service_static_public_key: String,
    /// Hash of the signed or pinned descriptor, base64-encoded.
    pub signed_descriptor_hash: String,
    /// Root signature over the canonical descriptor hash.
    pub descriptor_signature: DescriptorSignature,
    /// Root keys that authorize server Noise static keys and descriptor updates.
    pub trust_anchors: Vec<TrustAnchor>,
    /// Shared transport-selection policy.
    pub selection_policy: SelectionPolicy,
    /// Per-carrier targets for one logical service.
    pub carriers: CarrierSet,
}

/// Signature over a canonical descriptor hash.
#[derive(Debug, PartialEq, Eq)]
pub struct DescriptorSignature {
    /// Trusted root key identifier used to verify this signature.
    pub key_id: String,
    /// Signature algorithm name.
    pub algorithm: String,
    /// Signature bytes encoded with standard base64.
    pub signature: String,
}

/// One root key that authorizes descriptors and server Noise keys.
#[derive(Debug, PartialEq, Eq)]
pub struct TrustAnchor {
    /// Operator-managed key identifier.
    pub key_id: String,
    /// Signature algorithm name, for example `ed25519`.
    pub algorithm: String,
    /// Public key bytes encoded for transport or config.
    pub public_key: String,
}

/// Shared transport policy for one logical service.
#[derive(Debug, Clone, Copy, PartialEq, Eq)]
pub struct SelectionPolicy {
    /// Preferred first carrier.
    pub preferred_carrier: CarrierKind,
    /// Whether `WSS` may be attempted after eligible `QUIC` failures.
    pub allow_wss_fallback: bool,
}

/// Per-carrier targets for one logical service.
#[derive(Debug, PartialEq, Eq)]
pub struct CarrierSet {
    /// Preferred raw `QUIC` target.
    pub quic: Option<QuicTarget>,
    /// Optional `WSS` target used only when fallback policy allows it.
    pub wss: Option<WssTarget>,
}

/// What a trust anchor says: its key identifier, algorithm and encoded key.
#[verifier::ext_equal]
pub struct AnchorView {
    /// Key identifier.
    pub key_id: Seq<char>,
    /// Signature algorithm name.
    pub algorithm: Seq<char>,
    /// Encoded public key.
    pub public_key: Seq<char>,
}

impl View for TrustAnchor {
    type V = AnchorView;

    open spec fn view(&self) -> AnchorView {
        AnchorView {
            key_id: self.key_id@,
            algorithm: self.algorithm@,
            public_key: self.public_key@,
        }
    }
}

impl DeepView for TrustAnchor {
    type V = AnchorView;

    open spec fn deep_view(&self) -> AnchorView {
        self@
    }
}

/// `QUIC` target parameters carried by the service descriptor.
#[derive(Debug, PartialEq, Eq)]
pub struct QuicTarget {
    /// DNS name or IP used for the outer connection attempt.
    pub connect_host: String,
    /// UDP port for the `QUIC` endpoint.
    pub port: u16,
    /// Expected ALPN value.
    pub alpn: String,
    /// Optional SNI override when routing differs from the service authority.
    pub sni_override: Option<String>,
}

/// `WSS` target parameters carried by the service descriptor.
#[derive(Debug, PartialEq, Eq)]
pub struct WssTarget {
    /// Full `WSS` URL.
    pub url: String,
    /// Expected WebSocket subprotocol.
    pub subprotocol: String,
    /// Optional Host or authority override.
    pub authority_override: Option<String>,
}

/// A copy of an optional string.
pub fn clone_optional_string(value: &Option<String>) -> (r: Option<String>)
    ensures
        r == *value,
{
    match value {
        Some(s) => Some(s.clone()),
        None => None,
    }
}

impl Clone for DescriptorSignature {
    fn clone(&self) -> (r: Self)
        ensures
            r == *self,
    {
        DescriptorSignature {
            key_id: self.key_id.clone(),
            algorithm: self.algorithm.clone(),
            signature: self.signature.clone(),
        }
    }
}

impl Clone for TrustAnchor {
    fn clone(&self) -> (r: Self)
        ensures
            r == *self,
    {
        TrustAnchor {
            key_id: self.key_id.clone(),
            algorithm: self.algorithm.clone(),
            public_key: self.public_key.clone(),
        }
    }
}

impl Clone for QuicTarget {
    fn clone(&self) -> (r: Self)
        ensures
            r == *self,
    {
        QuicTarget {
            connect_host: self.connect_host.clone(),
            port: self.port,
            alpn: self.alpn.clone(),
            sni_override: clone_optional_string(&self.sni_override),
        }
    }
}

impl Clone for WssTarget {
    fn clone(&self) -> (r: Self)
        ensures
            r == *self,
    {
        WssTarget {
            url: self.url.clone(),
            subprotocol: self.subprotocol.clone(),
            authority_override: clone_optional_string(&self.authority_override),
        }
    }
}

/// A copy of an optional `QUIC` target.
pub fn clone_optional_quic(value: &Option<QuicTarget>) -> (r: Option<QuicTarget>)
    ensures
        r == *value,
{
    match value {
        Some(t) => Some(t.clone()),
        None => None,
    }
}

/// A copy of an optional `WSS` target.
pub fn clone_optional_wss(value: &Option<WssTarget>) -> (r: Option<WssTarget>)
    ensures
        r == *value,
{
    match value {
        Some(t) => Some(t.clone()),
        None => None,
    }
}

impl Clone for CarrierSet {
    fn clone(&self) -> (r: Self)
        ensures
            r == *self,
    {
        CarrierSet { quic: clone_optional_quic(&self.quic), wss: clone_optional_wss(&self.wss) }
    }
}

/// A copy of a list of trust anchors.
pub fn clone_trust_anchors(anchors: &Vec<TrustAnchor>) -> (r: Vec<TrustAnchor>)
    ensures
        r@ == anchors@,
{
    let mut out: Vec<TrustAnchor> = Vec::new();
    let mut i: usize = 0;
    while i < anchors.len()
        invariant
            i <= anchors@.len(),
            out@ == anchors@.subrange(0, i as int),
        decreases anchors@.len() - i,
    {
        out.push(anchors[i].clone());
        i = i + 1;
        assert(out@ =~= anchors@.subrange(0, i as int));
    }
    assert(anchors@.subrange(0, anchors@.len() as int) =~= anchors@);
    out
}

/// Whether `a` is a copy of `b`: every field equal, the trust anchors as a
/// sequence.
pub open spec fn descriptor_copy(a: ServiceDescriptor, b: ServiceDescriptor) -> bool {
    &&& a.descriptor_version == b.descriptor_version
    &&& a.descriptor_serial == b.descriptor_serial
    &&& a.not_before == b.not_before
    &&& a.not_after == b.not_after
    &&& a.environment_id == b.environment_id
    &&& a.service_id == b.service_id
    &&& a.service_authority == b.service_authority
    &&& a.protocol_id == b.protocol_id
    &&& a.noise_suite == b.noise_suite
    &&& a.service_static_public_key == b.service_static_public_key
    &&& a.signed_descriptor_hash == b.signed_descriptor_hash
    &&& a.descriptor_signature == b.descriptor_signature
    &&& a.trust_anchors@ == b.trust_anchors@
    &&& a.selection_policy == b.selection_policy
    &&& a.carriers == b.carriers
}

impl Clone for ServiceDescriptor {
    fn clone(&self) -> (r: Self)
        ensures
            descriptor_copy(r, *self),
    {
        ServiceDescriptor {
            descriptor_version: self.descriptor_version,
            descriptor_serial: self.descriptor_serial,
            not_before: self.not_before.clone(),
            not_after: self.not_after.clone(),
            environment_id: self.environment_id.clone(),
            service_id: self.service_id.clone(),
            service_authority: self.service_authority.clone(),
            protocol_id: self.protocol_id.clone(),
            noise_suite: self.noise_suite.clone(),
            service_static_public_key: self.service_static_public_key.clone(),
            signed_descriptor_hash: self.signed_descriptor_hash.clone(),
            descriptor_signature: self.descriptor_signature.clone(),
            trust_anchors: clone_trust_anchors(&self.trust_anchors),
            selection_policy: self.selection_policy,
            carriers: self.carriers.clone(),
        }
    }
}

/// The first of two possible errors.
pub open spec fn first_error(a: Option<ApiError>, b: Option<ApiError>) -> Option<ApiError> {
    if a is Some {
        a
    } else {
        b
    }
}

/// `Ok` when there is no error, else the error.
pub open spec fn as_result(e: Option<ApiError>) -> ApiResult<()> {
    match e {
        Some(e) => Err(e),
        None => Ok(()),
    }
}

/// A descriptor error carrying `message`.
pub open spec fn invalid(message: &'static str) -> Option<ApiError> {
    Some(ApiError::InvalidServiceDescriptor(message))
}

/// The error a blank required text field reports, if it is blank.
pub open spec fn required_text_error(value: Seq<char>, message: &'static str) -> Option<ApiError> {
    if is_blank(value) {
        invalid(message)
    } else {
        None
    }
}

/// The error a base64 32-byte nonzero field reports, if it has one.
pub open spec fn key_material_error(
    value: Seq<char>,
    decode_message: &'static str,
    zero_message: &'static str,
) -> Option<ApiError> {
    match base64_32(value) {
        None => invalid(decode_message),
        Some(bytes) => if nonzero(bytes) {
            None
        } else {
            invalid(zero_message)
        },
    }
}

/// The error the service static public key field reports, if it has one.
pub open spec fn service_key_error(value: Seq<char>) -> Option<ApiError> {
    key_material_error(
        value,
        "service_static_public_key must be base64-encoded 32-byte public key",
        "service_static_public_key must not be all zeroes",
    )
}

/// The error the signed descriptor hash field reports, if it has one.
pub open spec fn descriptor_hash_error(value: Seq<char>) -> Option<ApiError> {
    key_material_error(
        value,
        "signed_descriptor_hash must be base64-encoded 32-byte hash",
        "signed_descriptor_hash must not be all zeroes",
    )
}

/// The error a trust anchor reports, if it has one.
pub open spec fn anchor_error(anchor: AnchorView) -> Option<ApiError> {
    if is_blank(anchor.key_id) {
        invalid("trust anchor key_id must not be empty")
    } else if anchor.algorithm != "ed25519"@ {
        invalid("trust anchor algorithm must be ed25519")
    } else if !verifying_key_ok(anchor.public_key) {
        invalid("trust anchor public_key must be a valid Ed25519 verifying key")
    } else {
        None
    }
}

/// The error of the first trust anchor that has one.
pub open spec fn anchors_error(anchors: Seq<AnchorView>) -> Option<ApiError>
    decreases anchors.len(),
{
    if anchors.len() == 0 {
        None
    } else {
        first_error(anchor_error(anchors[0]), anchors_error(anchors.drop_first()))
    }
}

/// The error the descriptor signature reports, if it has one.
pub open spec fn signature_error(signature: DescriptorSignature) -> Option<ApiError> {
    if is_blank(signature.key_id@) {
        invalid("descriptor_signature key_id must not be empty")
    } else if signature.algorithm@ != "ed25519"@ {
        invalid("descriptor_signature algorithm must be ed25519")
    } else if is_blank(signature.signature@) {
        invalid("descriptor_signature signature must not be empty")
    } else {
        None
    }
}

/// Whether an optional override is present but blank.
pub open spec fn blank_override(value: Option<String>) -> bool {
    match value {
        Some(v) => is_blank(v@),
        None => false,
    }
}

/// The error a `QUIC` target reports, if it has one.
pub open spec fn quic_target_error(target: QuicTarget) -> Option<ApiError> {
    if is_blank(target.connect_host@) {
        invalid("QUIC connect_host must not be empty")
    } else if target.port == 0 {
        invalid("QUIC port must not be zero")
    } else if target.alpn@ != QUIC_ALPN_V1@ {
        invalid("QUIC ALPN must match the v1 descriptor value")
    } else if blank_override(target.sni_override) {
        invalid("QUIC sni_override must not be empty when present")
    } else {
        None
    }
}

/// `wss://`.
pub open spec fn wss_scheme() -> Seq<char> {
    seq!['w', 's', 's', ':', '/', '/']
}

/// Position of the first `/` in `s`, or its length when there is none.
pub open spec fn slash_index(s: Seq<char>) -> nat
    decreases s.len(),
{
    if s.len() == 0 || s[0] == '/' {
        0
    } else {
        1 + slash_index(s.drop_first())
    }
}

/// The authority of a `wss://` URL: what follows the scheme, up to the first `/`.
pub open spec fn wss_authority(url: Seq<char>) -> Seq<char> {
    let rest = url.skip(6);
    rest.take(slash_index(rest) as int)
}

/// Whether a URL uses `wss://` with a non-empty authority that does not start
/// with `?` or `#` and holds no white space.
pub open spec fn wss_url_ok(url: Seq<char>) -> bool {
    &&& url.len() >= 6
    &&& url.take(6) == wss_scheme()
    &&& wss_authority(url).len() > 0
    &&& wss_authority(url)[0] != '?'
    &&& wss_authority(url)[0] != '#'
    &&& !has_white_space(wss_authority(url))
}

/// The error a `WSS` target reports, if it has one.
pub open spec fn wss_target_error(target: WssTarget) -> Option<ApiError> {
    if !wss_url_ok(target.url@) {
        invalid("WSS target URL must use wss:// with a non-empty authority")
    } else if target.subprotocol@ != WSS_SUBPROTOCOL_V1@ {
        invalid("WSS subprotocol must match the v1 descriptor value")
    } else if blank_override(target.authority_override) {
        invalid("WSS authority_override must not be empty when present")
    } else {
        None
    }
}

impl ServiceDescriptor {
    /// The error the identity fields report, if any: version, serial, the
    /// required text fields, protocol and Noise suite.
    pub open spec fn identity_error(&self) -> Option<ApiError> {
        if self.descriptor_version != 1 {
            invalid("descriptor_version must be 1 for v1 descriptors")
        } else if self.descriptor_serial == 0 {
            invalid("descriptor_serial must not be zero")
        } else if is_blank(self.not_before@) {
            invalid("not_before must not be empty")
        } else if is_blank(self.not_after@) {
            invalid("not_after must not be empty")
        } else if is_blank(self.environment_id@) {
            invalid("environment_id must not be empty")
        } else if is_blank(self.service_id@) {
            invalid("service_id must not be empty")
        } else if is_blank(self.service_authority@) {
            invalid("service_authority must not be empty")
        } else if self.protocol_id@ != PROTOCOL_ID_V1@ {
            invalid("protocol_id must match the v1 protocol identifier")
        } else if self.noise_suite@ != NOISE_SUITE_V1@ {
            invalid("noise_suite must match the v1 Noise suite identifier")
        } else {
            None
        }
    }

    /// The error the key material and trust fields report, if any.
    pub open spec fn trust_error(&self) -> Option<ApiError> {
        if service_key_error(self.service_static_public_key@) is Some {
            service_key_error(self.service_static_public_key@)
        } else if descriptor_hash_error(self.signed_descriptor_hash@) is Some {
            descriptor_hash_error(self.signed_descriptor_hash@)
        } else if self.trust_anchors@.len() == 0 {
            invalid("at least one trust anchor is required")
        } else if anchors_error(self.trust_anchors.deep_view()) is Some {
            anchors_error(self.trust_anchors.deep_view())
        } else {
            signature_error(self.descriptor_signature)
        }
    }

    /// The error the selection policy and carriers report, if any.
    pub open spec fn carrier_error(&self) -> Option<ApiError> {
        if self.selection_policy.preferred_carrier != CarrierKind::Quic {
            invalid("v1 requires QUIC as the preferred carrier")
        } else if self.carriers.quic is None {
            invalid("v1 requires a QUIC carrier target")
        } else if quic_target_error(self.carriers.quic->0) is Some {
            quic_target_error(self.carriers.quic->0)
        } else if self.selection_policy.allow_wss_fallback && self.carriers.wss is None {
            invalid("allow_wss_fallback requires a WSS carrier target")
        } else if self.carriers.wss is Some {
            wss_target_error(self.carriers.wss->0)
        } else {
            None
        }
    }

    /// The error `validate` reports: the first failing structural check.
    pub open spec fn validation_error(&self) -> Option<ApiError> {
        first_error(self.identity_error(), first_error(self.trust_error(), self.carrier_error()))
    }

    /// Whether the descriptor meets every structural v1 invariant.
    pub open spec fn is_valid(&self) -> bool {
        self.validation_error() is None
    }
}

fn validate_required_text(value: &str, message: &'static str) -> (r: ApiResult<()>)
    ensures
        r == as_result(required_text_error(value@, message)),
{
    if str_is_blank(value) {
        return Err(ApiError::InvalidServiceDescriptor(message));
    }
    Ok(())
}

/// Whether an optional override is present but blank.
fn override_is_blank(value: &Option<String>) -> (b: bool)
    ensures
        b == blank_override(*value),
{
    match value {
        Some(v) => str_is_blank(v.as_str()),
        None => false,
    }
}

fn validate_trust_anchor(trust_anchor: &TrustAnchor) -> (r: ApiResult<()>)
    ensures
        r == as_result(anchor_error(trust_anchor@)),
{
    if str_is_blank(trust_anchor.key_id.as_str()) {
        return Err(ApiError::InvalidServiceDescriptor("trust anchor key_id must not be empty"));
    }
    if !str_eq(trust_anchor.algorithm.as_str(), "ed25519") {
        return Err(ApiError::InvalidServiceDescriptor("trust anchor algorithm must be ed25519"));
    }
    if parse_verifying_key(trust_anchor).is_err() {
        return Err(
            ApiError::InvalidServiceDescriptor(
                "trust anchor public_key must be a valid Ed25519 verifying key",
            ),
        );
    }
    Ok(())
}

fn validate_trust_anchors(anchors: &Vec<TrustAnchor>) -> (r: ApiResult<()>)
    ensures
        r == as_result(anchors_error(anchors.deep_view())),
{
    let ghost views = anchors.deep_view();
    let mut i: usize = 0;
    assert(views.subrange(0, views.len() as int) =~= views);
    while i < anchors.len()
        invariant
            i <= anchors@.len(),
            views == anchors.deep_view(),
            views.len() == anchors@.len(),
            anchors_error(views) == anchors_error(views.subrange(i as int, views.len() as int)),
        decreases anchors@.len() - i,
    {
        let ghost rest = views.subrange(i as int, views.len() as int);
        assert(rest.drop_first() =~= views.subrange(i + 1, views.len() as int));
        assert(rest[0] == anchors@[i as int]@);
        match validate_trust_anchor(&anchors[i]) {
            Ok(()) => {},
            Err(e) => {
                return Err(e);
            },
        }
        i = i + 1;
    }
    assert(views.subrange(i as int, views.len() as int).len() == 0);
    Ok(())
}

fn validate_descriptor_signature(signature: &DescriptorSignature) -> (r: ApiResult<()>)
    ensures
        r == as_result(signature_error(*signature)),
{
    validate_required_text(
        signature.key_id.as_str(),
        "descriptor_signature key_id must not be empty",
    )?;
    if !str_eq(signature.algorithm.as_str(), "ed25519") {
        return Err(
            ApiError::InvalidServiceDescriptor("descriptor_signature algorithm must be ed25519"),
        );
    }
    validate_required_text(
        signature.signature.as_str(),
        "descriptor_signature signature must not be empty",
    )
}

fn validate_quic_target(target: &QuicTarget) -> (r: ApiResult<()>)
    ensures
        r == as_result(quic_target_error(*target)),
{
    if str_is_blank(target.connect_host.as_str()) {
        return Err(ApiError::InvalidServiceDescriptor("QUIC connect_host must not be empty"));
    }
    if target.port == 0 {
        return Err(ApiError::InvalidServiceDescriptor("QUIC port must not be zero"));
    }
    if !str_eq(target.alpn.as_str(), QUIC_ALPN_V1) {
        return Err(
            ApiError::InvalidServiceDescriptor("QUIC ALPN must match the v1 descriptor value"),
        );
    }
    if override_is_blank(&target.sni_override) {
        return Err(
            ApiError::InvalidServiceDescriptor(
                "QUIC sni_override must not be empty when present",
            ),
        );
    }
    Ok(())
}

fn validate_wss_target(target: &WssTarget) -> (r: ApiResult<()>)
    ensures
        r == as_result(wss_target_error(*target)),
{
    if !wss_url_has_authority(target.url.as_str()) {
        return Err(
            ApiError::InvalidServiceDescriptor(
                "WSS target URL must use wss:// with a non-empty authority",
            ),
        );
    }
    if !str_eq(target.subprotocol.as_str(), WSS_SUBPROTOCOL_V1) {
        return Err(
            ApiError::InvalidServiceDescriptor(
                "WSS subprotocol must match the v1 descriptor value",
            ),
        );
    }
    if override_is_blank(&target.authority_override) {
        return Err(
            ApiError::InvalidServiceDescriptor(
                "WSS authority_override must not be empty when present",
            ),
        );
    }
    Ok(())
}

proof fn lemma_slash_index(s: Seq<char>, k: int)
    requires
        0 <= k <= s.len(),
        forall|i: int| 0 <= i < k ==> s[i] != '/',
        k == s.len() || s[k] == '/',
    ensures
        slash_index(s) == k,
    decreases k,
{
    if k > 0 {
        assert(s[0] != '/');
        let t = s.drop_first();
        assert forall|i: int| 0 <= i < k - 1 implies t[i] != '/' by {
            assert(t[i] == s[i + 1]);
        }
        if k < s.len() {
            assert(t[k - 1] == s[k]);
        }
        lemma_slash_index(t, k - 1);
    }
}

/// The characters of a string, in order.
pub fn chars_of(s: &str) -> (chars: Vec<char>)
    ensures
        chars@ == s@,
{
    let mut chars: Vec<char> = Vec::new();
    for c in it: s.chars()
        invariant
            it.seq() == s@,
            chars@ == s@.take(it.index() as int),
    {
        chars.push(c);
        assert(chars@ =~= s@.take(it.index() + 1));
    }
    assert(s@.take(s@.len() as int) =~= s@);
    chars
}

/// Whether `url` uses `wss://` with a non-empty authority that does not start
/// with `?` or `#` and holds no white space.
pub fn wss_url_has_authority(url: &str) -> (b: bool)
    ensures
        b == wss_url_ok(url@),
{
    let chars = chars_of(url);
    let n = chars.len();
    if n < 6 || chars[0] != 'w' || chars[1] != 's' || chars[2] != 's' || chars[3] != ':'
        || chars[4] != '/' || chars[5] != '/' {
        proof {
            if url@.len() >= 6 && url@.take(6) == wss_scheme() {
                assert(url@.take(6)[0] == url@[0]);
                assert(url@.take(6)[1] == url@[1]);
                assert(url@.take(6)[2] == url@[2]);
                assert(url@.take(6)[3] == url@[3]);
                assert(url@.take(6)[4] == url@[4]);
                assert(url@.take(6)[5] == url@[5]);
            }
        }
        return false;
    }
    assert(url@.take(6) =~= wss_scheme());
    let mut j: usize = 6;
    let mut white = false;
    while j < n && chars[j] != '/'
        invariant
            n == chars@.len(),
            chars@ == url@,
            6 <= j <= n,
            forall|k: int| 6 <= k < j ==> chars@[k] != '/',
            white <==> exists|k: int| 6 <= k < j && is_white_space(#[trigger] chars@[k]),
        decreases n - j,
    {
        if char_is_whitespace(chars[j]) {
            white = true;
        }
        j = j + 1;
    }
    let ghost rest = url@.skip(6);
    proof {
        assert forall|i: int| 0 <= i < j - 6 implies rest[i] != '/' by {
            assert(rest[i] == url@[i + 6]);
        }
        if j < n {
            assert(rest[j - 6] == url@[j as int]);
        }
        lemma_slash_index(rest, j - 6);
    }
    let ghost authority = wss_authority(url@);
    assert(authority =~= url@.subrange(6, j as int));
    if j == 6 {
        return false;
    }
    let first = chars[6];
    assert(authority[0] == first);
    if first == '?' || first == '#' {
        return false;
    }
    proof {
        if white {
            let k = choose|k: int| 6 <= k < j && is_white_space(#[trigger] chars@[k]);
            assert(authority[k - 6] == chars@[k]);
        }
        if has_white_space(authority) {
            let k = choose|k: int| 0 <= k < authority.len() && is_white_space(#[trigger] authority[k]);
            assert(authority[k] == chars@[k + 6]);
        }
    }
    !white
}

impl ServiceDescriptor {
    fn validate_identity(&self) -> (r: ApiResult<()>)
        ensures
            r == as_result(self.identity_error()),
    {
        if self.descriptor_version != 1 {
            return Err(
                ApiError::InvalidServiceDescriptor("descriptor_version must be 1 for v1 descriptors"),
            );
        }
        if self.descriptor_serial == 0 {
            return Err(ApiError::InvalidServiceDescriptor("descriptor_serial must not be zero"));
        }
        validate_required_text(self.not_before.as_str(), "not_before must not be empty")?;
        validate_required_text(self.not_after.as_str(), "not_after must not be empty")?;
        validate_required_text(self.environment_id.as_str(), "environment_id must not be empty")?;
        validate_required_text(self.service_id.as_str(), "service_id must not be empty")?;
        validate_required_text(
            self.service_authority.as_str(),
            "service_authority must not be empty",
        )?;
        if !str_eq(self.protocol_id.as_str(), PROTOCOL_ID_V1) {
            return Err(
                ApiError::InvalidServiceDescriptor(
                    "protocol_id must match the v1 protocol identifier",
                ),
            );
        }
        if !str_eq(self.noise_suite.as_str(), NOISE_SUITE_V1) {
            return Err(
                ApiError::InvalidServiceDescriptor(
                    "noise_suite must match the v1 Noise suite identifier",
                ),
            );
        }
        Ok(())
    }

    fn validate_trust(&self) -> (r: ApiResult<()>)
        ensures
            r == as_result(self.trust_error()),
    {
        match parse_service_static_public_key(self.service_static_public_key.as_str()) {
            Ok(_) => {},
            Err(e) => {
                return Err(e);
            },
        }
        match parse_signed_descriptor_hash(self.signed_descriptor_hash.as_str()) {
            Ok(_) => {},
            Err(e) => {
                return Err(e);
            },
        }
        if self.trust_anchors.len() == 0 {
            return Err(ApiError::InvalidServiceDescriptor("at least one trust anchor is required"));
        }
        validate_trust_anchors(&self.trust_anchors)?;
        validate_descriptor_signature(&self.descriptor_signature)
    }

    fn validate_carriers(&self) -> (r: ApiResult<()>)
        ensures
            r == as_result(self.carrier_error()),
    {
        match self.selection_policy.preferred_carrier {
            CarrierKind::Quic => {},
            CarrierKind::Wss => {
                return Err(
                    ApiError::InvalidServiceDescriptor("v1 requires QUIC as the preferred carrier"),
                );
            },
        }
        match &self.carriers.quic {
            Some(quic_target) => {
                validate_quic_target(quic_target)?;
            },
            None => {
                return Err(ApiError::InvalidServiceDescriptor("v1 requires a QUIC carrier target"));
            },
        }
        if self.selection_policy.allow_wss_fallback && self.carriers.wss.is_none() {
            return Err(
                ApiError::InvalidServiceDescriptor(
                    "allow_wss_fallback requires a WSS carrier target",
                ),
            );
        }
        match &self.carriers.wss {
            Some(wss_target) => validate_wss_target(wss_target),
            None => Ok(()),
        }
    }

    /// Validates the minimum structural invariants for the public descriptor.
    ///
    /// Fails with the error of the first failing check, in this order: the
    /// identity fields, the key material, the trust anchors, the descriptor
    /// signature, the selection policy and the carrier targets.
    pub fn validate(&self) -> (r: ApiResult<()>)
        ensures
            r == as_result(self.validation_error()),
    {
        self.validate_identity()?;
        self.validate_trust()?;
        self.validate_carriers()
    }
}

/// The snapshot a borrowed optional snapshot refers to.
pub open spec fn snapshot_of(cache: Option<&TransportCacheSnapshot>) -> Option<TransportCacheSnapshot> {
    match cache {
        Some(c) => Some(*c),
        None => None,
    }
}

/// Whether the cache remembers a fallback-eligible `QUIC` failure.
pub open spec fn cached_quic_bad(cache: Option<TransportCacheSnapshot>) -> bool {
    cache matches Some(c) && c.last_quic_failure is Some
}

/// Whether the cached `QUIC` reprobe deadline lies after `now`.
pub open spec fn cache_still_active(cache: Option<TransportCacheSnapshot>, now: u64) -> bool {
    cache matches Some(c) && c.next_quic_probe_after_unix_seconds matches Some(deadline) && now
        < deadline
}

/// Whether the cache has accepted a descriptor with a higher serial.
pub open spec fn serial_rolled_back(cache: Option<TransportCacheSnapshot>, serial: u64) -> bool {
    cache matches Some(c) && c.highest_descriptor_serial matches Some(highest) && serial < highest
}

/// The plan of a live attempt: `QUIC` first, then `WSS` where the policy
/// allows fallback and a target exists.
pub open spec fn live_plan(
    policy: SelectionPolicy,
    quic_target: QuicTarget,
    wss_target: Option<WssTarget>,
    reprobe_after_cached_fallback: bool,
) -> Seq<TransportCandidate> {
    let first = TransportCandidate {
        target: TransportTarget::Quic(quic_target),
        source: if reprobe_after_cached_fallback {
            CandidateSource::QuicReprobeAfterCachedFallback
        } else {
            CandidateSource::PreferredCarrier
        },
    };
    if policy.allow_wss_fallback && wss_target is Some {
        seq![
            first,
            TransportCandidate {
                target: TransportTarget::Wss(wss_target->0),
                source: CandidateSource::FallbackCarrier,
            },
        ]
    } else {
        seq![first]
    }
}

impl ServiceDescriptor {
    /// What `connect_plan` returns for a cache snapshot at `now`.
    pub open spec fn plan_result(&self, cache: Option<TransportCacheSnapshot>, now: u64) -> ApiResult<
        Seq<TransportCandidate>,
    > {
        let bad = cached_quic_bad(cache);
        let active = cache_still_active(cache, now);
        if self.validation_error() is Some {
            Err(self.validation_error()->0)
        } else if window_error(self.not_before@, self.not_after@, now) is Some {
            Err(window_error(self.not_before@, self.not_after@, now)->0)
        } else if serial_rolled_back(cache, self.descriptor_serial) {
            Err(
                ApiError::InvalidServiceDescriptor(
                    "descriptor_serial is older than the cached accepted descriptor",
                ),
            )
        } else if self.carriers.quic is None {
            Err(ApiError::UnavailableCarrier(CarrierKind::Quic))
        } else if bad && active && !self.selection_policy.allow_wss_fallback {
            Err(
                ApiError::TransportPlanBlocked(
                    "cached QUIC-bad posture requires WSS fallback or cache expiry",
                ),
            )
        } else if bad && active {
            match self.carriers.wss {
                Some(w) => Ok(
                    seq![
                        TransportCandidate {
                            target: TransportTarget::Wss(w),
                            source: CandidateSource::CachedQuicBadNetwork,
                        },
                    ],
                ),
                None => Err(
                    ApiError::TransportPlanBlocked(
                        "cached QUIC-bad posture has no WSS fallback target",
                    ),
                ),
            }
        } else {
            Ok(live_plan(self.selection_policy, self.carriers.quic->0, self.carriers.wss, bad))
        }
    }

    /// The error building the inner channel context reports, if any.
    pub open spec fn context_error(&self) -> Option<ApiError> {
        if descriptor_hash_error(self.signed_descriptor_hash@) is Some {
            descriptor_hash_error(self.signed_descriptor_hash@)
        } else if !public_label_ok(self.service_id@) || !public_label_ok(self.environment_id@)
            || !public_label_ok(self.service_authority@) {
            invalid("public descriptor label must not be empty or contain control characters")
        } else {
            None
        }
    }

    /// The error building the canonical Noise prologue reports, if any.
    pub open spec fn prologue_error(&self) -> Option<ApiError> {
        if self.context_error() is Some {
            self.context_error()
        } else if !(fits_u16(self.service_id@) && fits_u16(self.environment_id@) && fits_u16(
            self.service_authority@,
        )) {
            invalid("canonical string exceeds u16 length")
        } else {
            None
        }
    }

    /// The canonical Noise prologue of a descriptor whose prologue builds.
    pub open spec fn prologue_spec(&self) -> Seq<u8> {
        prologue_for(
            self.service_id@,
            self.environment_id@,
            self.service_authority@,
            base64_32(self.signed_descriptor_hash@)->0,
            NOISE_SUITE_V1@,
        )
    }

    /// Returns the authorized service Noise static public key bytes.
    ///
    /// Fails when the field is not base64 of 32 bytes, or those bytes are all zero.
    pub fn service_static_public_key_bytes(&self) -> (r: ApiResult<NoisePublicKey>)
        ensures
            r is Ok <==> service_key_error(self.service_static_public_key@) is None,
            r matches Ok(k) ==> Some(k@) == base64_32(self.service_static_public_key@),
            r is Err ==> r == Err::<NoisePublicKey, ApiError>(
                service_key_error(self.service_static_public_key@)->0,
            ),
    {
        parse_service_static_public_key(self.service_static_public_key.as_str())
    }

    /// Returns the signed or pinned descriptor hash bytes.
    ///
    /// Fails when the field is not base64 of 32 bytes, or those bytes are all zero.
    pub fn signed_descriptor_hash_bytes(&self) -> (r: ApiResult<DescriptorHash>)
        ensures
            r is Ok <==> descriptor_hash_error(self.signed_descriptor_hash@) is None,
            r matches Ok(k) ==> Some(k@) == base64_32(self.signed_descriptor_hash@),
            r is Err ==> r == Err::<DescriptorHash, ApiError>(
                descriptor_hash_error(self.signed_descriptor_hash@)->0,
            ),
    {
        parse_signed_descriptor_hash(self.signed_descriptor_hash.as_str())
    }

    /// Returns the stable context bound into the inner Noise prologue.
    ///
    /// Fails when the descriptor hash is not valid hash material, or a bound
    /// label is blank or holds a control character.
    pub fn inner_channel_context(&self) -> (r: ApiResult<InnerChannelContext>)
        ensures
            r is Ok <==> self.context_error() is None,
            r matches Ok(c) ==> c.service_id == self.service_id && c.environment_id
                == self.environment_id && c.service_authority == self.service_authority && Some(
                c.signed_descriptor_hash@,
            ) == base64_32(self.signed_descriptor_hash@) && c.allowed_noise_suite@
                == NOISE_SUITE_V1@ && c.valid(),
            r is Err ==> r == Err::<InnerChannelContext, ApiError>(self.context_error()->0),
    {
        let hash = self.signed_descriptor_hash_bytes()?;
        InnerChannelContext::v1(
            self.service_id.clone(),
            self.environment_id.clone(),
            self.service_authority.clone(),
            hash,
        )
    }

    /// Builds the canonical Noise prologue for this descriptor.
    ///
    /// Fails as `inner_channel_context` does, and when a bound label exceeds
    /// the 16-bit length prefix.
    pub fn noise_prologue(&self) -> (r: ApiResult<Vec<u8>>)
        ensures
            r is Ok <==> self.context_error() is None && fits_u16(self.service_id@) && fits_u16(
                self.environment_id@,
            ) && fits_u16(self.service_authority@),
            r matches Ok(v) ==> v@ == prologue_for(
                self.service_id@,
                self.environment_id@,
                self.service_authority@,
                base64_32(self.signed_descriptor_hash@)->0,
                NOISE_SUITE_V1@,
            ),
            self.context_error() is Some ==> r == Err::<Vec<u8>, ApiError>(
                self.context_error()->0,
            ),
            self.context_error() is None && !(fits_u16(self.service_id@) && fits_u16(
                self.environment_id@,
            ) && fits_u16(self.service_authority@)) ==> r == Err::<Vec<u8>, ApiError>(
                ApiError::InvalidServiceDescriptor("canonical string exceeds u16 length"),
            ),
            r is Ok <==> self.prologue_error() is None,
            r matches Ok(v) ==> v@ == self.prologue_spec(),
            r is Err ==> r == Err::<Vec<u8>, ApiError>(self.prologue_error()->0),
    {
        let context = self.inner_channel_context()?;
        proof {
            reveal_strlit("Noise_NX_25519_ChaChaPoly_BLAKE2s");
            crate::text::lemma_encode_utf8_len(NOISE_SUITE_V1@);
        }
        context.prologue_bytes()
    }

    /// Verifies descriptor freshness and root authorization at a timestamp.
    ///
    /// Fails when the descriptor is structurally invalid, outside its
    /// validity window, has a mismatched canonical hash, or lacks a valid
    /// signature from one of the pinned roots.
    pub fn authorize_at(&self, now_unix_seconds: u64, trusted_roots: &[TrustAnchor]) -> (r:
        ApiResult<()>)
        ensures
            r == as_result(authorization_error(*self, trusted_roots.deep_view(), now_unix_seconds)),
    {
        authorize_descriptor_at(self, trusted_roots, now_unix_seconds)
    }

    /// Verifies descriptor freshness at a timestamp.
    ///
    /// Fails when a timestamp does not parse, the window is not ordered, or
    /// `now_unix_seconds` lies outside `[not_before, not_after)`.
    pub fn ensure_valid_at(&self, now_unix_seconds: u64) -> (r: ApiResult<()>)
        ensures
            r == as_result(window_error(self.not_before@, self.not_after@, now_unix_seconds)),
    {
        validate_descriptor_window(self, now_unix_seconds)
    }

    /// Re-signs the descriptor with the built-in example root, for local
    /// fixtures that change ports or keys and still exercise signature
    /// verification. On failure the descriptor is left as it was.
    pub fn resign_with_example_key_for_testing(&mut self) -> (r: ApiResult<()>)
        ensures
            body_error_with(*old(self), seq![example_anchor_view()]) is Some ==> r == Err::<
                (),
                ApiError,
            >(body_error_with(*old(self), seq![example_anchor_view()])->0),
            body_error_with(*old(self), seq![example_anchor_view()]) is None ==> (r is Ok
                <==> nonzero(example_body_hash(*old(self)))),
            r is Ok ==> signed_by_example(*old(self), *final(self)),
            r is Err ==> *final(self) == *old(self),
    {
        match sign_example_descriptor(self.clone()) {
            Ok(signed) => {
                *self = signed;
                Ok(())
            },
            Err(e) => Err(e),
        }
    }

    /// Returns the ordered connect plan for the current coarse network posture.
    ///
    /// Fails when the descriptor is invalid or outside its validity window,
    /// when the cache has accepted a newer descriptor serial, and when a
    /// cached QUIC-bad posture that is still active leaves no `WSS` fallback.
    pub fn connect_plan(&self, cache: Option<&TransportCacheSnapshot>, now_unix_seconds: u64) -> (r:
        ApiResult<Vec<TransportCandidate>>)
        ensures
            r is Ok <==> self.plan_result(snapshot_of(cache), now_unix_seconds) is Ok,
            r matches Ok(v) ==> Ok::<Seq<TransportCandidate>, ApiError>(v@) == self.plan_result(
                snapshot_of(cache),
                now_unix_seconds,
            ),
            r is Err ==> r == Err::<Vec<TransportCandidate>, ApiError>(
                self.plan_result(snapshot_of(cache), now_unix_seconds)->Err_0,
            ),
    {
        self.validate()?;
        self.ensure_valid_at(now_unix_seconds)?;
        let rolled_back = match cache {
            Some(snapshot) => match snapshot.highest_descriptor_serial {
                Some(serial) => self.descriptor_serial < serial,
                None => false,
            },
            None => false,
        };
        if rolled_back {
            return Err(
                ApiError::InvalidServiceDescriptor(
                    "descriptor_serial is older than the cached accepted descriptor",
                ),
            );
        }
        let quic_target = match clone_optional_quic(&self.carriers.quic) {
            Some(target) => target,
            None => {
                return Err(ApiError::UnavailableCarrier(CarrierKind::Quic));
            },
        };
        let wss_target = clone_optional_wss(&self.carriers.wss);
        let cached_bad = match cache {
            Some(snapshot) => snapshot.last_quic_failure.is_some(),
            None => false,
        };
        let still_active = match cache {
            Some(snapshot) => match snapshot.next_quic_probe_after_unix_seconds {
                Some(deadline) => now_unix_seconds < deadline,
                None => false,
            },
            None => false,
        };
        if cached_bad && still_active && !self.selection_policy.allow_wss_fallback {
            return Err(
                ApiError::TransportPlanBlocked(
                    "cached QUIC-bad posture requires WSS fallback or cache expiry",
                ),
            );
        }
        if cached_bad && still_active {
            return plan_for_cached_fallback(wss_target);
        }
        Ok(plan_for_live_attempt(&self.selection_policy, quic_target, wss_target, cached_bad))
    }
}

fn plan_for_cached_fallback(wss_target: Option<WssTarget>) -> (r: ApiResult<Vec<TransportCandidate>>)
    ensures
        match wss_target {
            Some(w) => r matches Ok(v) && v@ == seq![
                TransportCandidate {
                    target: TransportTarget::Wss(w),
                    source: CandidateSource::CachedQuicBadNetwork,
                },
            ],
            None => r == Err::<Vec<TransportCandidate>, ApiError>(
                ApiError::TransportPlanBlocked("cached QUIC-bad posture has no WSS fallback target"),
            ),
        },
{
    let wss = match wss_target {
        Some(wss) => wss,
        None => {
            return Err(
                ApiError::TransportPlanBlocked("cached QUIC-bad posture has no WSS fallback target"),
            );
        },
    };
    let mut plan: Vec<TransportCandidate> = Vec::new();
    plan.push(
        TransportCandidate {
            target: TransportTarget::Wss(wss),
            source: CandidateSource::CachedQuicBadNetwork,
        },
    );
    Ok(plan)
}

fn plan_for_live_attempt(
    policy: &SelectionPolicy,
    quic_target: QuicTarget,
    wss_target: Option<WssTarget>,
    reprobe_after_cached_fallback: bool,
) -> (plan: Vec<TransportCandidate>)
    ensures
        plan@ == live_plan(*policy, quic_target, wss_target, reprobe_after_cached_fallback),
{
    let mut plan: Vec<TransportCandidate> = Vec::new();
    plan.push(
        TransportCandidate {
            target: TransportTarget::Quic(quic_target),
            source: if reprobe_after_cached_fallback {
                CandidateSource::QuicReprobeAfterCachedFallback
            } else {
                CandidateSource::PreferredCarrier
            },
        },
    );
    if policy.allow_wss_fallback {
        match wss_target {
            Some(wss) => {
                plan.push(
                    TransportCandidate {
                        target: TransportTarget::Wss(wss),
                        source: CandidateSource::FallbackCarrier,
                    },
                );
            },
            None => {},
        }
    }
    plan
}

/// Every connect plan holds one or two candidates, comes only from a valid
/// descriptor inside its window, and never from a rolled-back serial. Under
/// an active cached QUIC-bad posture it is exactly the cached `WSS` fallback;
/// otherwise `QUIC` comes first (as a reprobe when a cached `QUIC` failure
/// has expired) and `WSS` may follow only as the live fallback the policy
/// allows.
pub proof fn lemma_connect_plan_shape(
    d: ServiceDescriptor,
    cache: Option<TransportCacheSnapshot>,
    now: u64,
)
    ensures
        d.plan_result(cache, now) is Ok ==> d.is_valid() && window_error(
            d.not_before@,
            d.not_after@,
            now,
        ) is None && !serial_rolled_back(cache, d.descriptor_serial),
        d.plan_result(cache, now) matches Ok(p) ==> 1 <= p.len() <= 2,
        d.plan_result(cache, now) matches Ok(p) ==> (cached_quic_bad(cache) && cache_still_active(
            cache,
            now,
        ) ==> p.len() == 1 && p[0].target is Wss && p[0].source
            == CandidateSource::CachedQuicBadNetwork),
        d.plan_result(cache, now) matches Ok(p) ==> (!(cached_quic_bad(cache) && cache_still_active(
            cache,
            now,
        )) ==> p[0].target is Quic && p[0].source == if cached_quic_bad(cache) {
            CandidateSource::QuicReprobeAfterCachedFallback
        } else {
            CandidateSource::PreferredCarrier
        }),
        d.plan_result(cache, now) matches Ok(p) ==> (p.len() == 2 ==> p[1].target is Wss
            && p[1].source == CandidateSource::FallbackCarrier && d.selection_policy.allow_wss_fallback),
        d.plan_result(cache, now) matches Ok(p) ==> (!d.selection_policy.allow_wss_fallback
            ==> p.len() == 1 && p[0].target is Quic),
{
}

/// A present override that is not blank is accepted as an absent one is:
/// giving a `QUIC` target a non-blank SNI override, or a `WSS` target a
/// non-blank authority override, never changes what validating a target or
/// a descriptor reports. A blank override is refused.
pub proof fn lemma_nonblank_overrides_accepted(
    d: ServiceDescriptor,
    q: QuicTarget,
    w: WssTarget,
    v: String,
)
    ensures
        !is_blank(v@) ==> quic_target_error(QuicTarget { sni_override: Some(v), ..q })
            == quic_target_error(QuicTarget { sni_override: None, ..q }),
        !is_blank(v@) ==> wss_target_error(WssTarget { authority_override: Some(v), ..w })
            == wss_target_error(WssTarget { authority_override: None, ..w }),
        !is_blank(v@) ==> (ServiceDescriptor {
            carriers: CarrierSet {
                quic: Some(QuicTarget { sni_override: Some(v), ..q }),
                ..d.carriers
            },
            ..d
        }).validation_error() == (ServiceDescriptor {
            carriers: CarrierSet { quic: Some(QuicTarget { sni_override: None, ..q }), ..d.carriers },
            ..d
        }).validation_error(),
        !is_blank(v@) ==> (ServiceDescriptor {
            carriers: CarrierSet {
                wss: Some(WssTarget { authority_override: Some(v), ..w }),
                ..d.carriers
            },
            ..d
        }).validation_error() == (ServiceDescriptor {
            carriers: CarrierSet {
                wss: Some(WssTarget { authority_override: None, ..w }),
                ..d.carriers
            },
            ..d
        }).validation_error(),
        is_blank(v@) && quic_target_error(QuicTarget { sni_override: None, ..q }) is None
            ==> quic_target_error(QuicTarget { sni_override: Some(v), ..q }) == Some(
            ApiError::InvalidServiceDescriptor("QUIC sni_override must not be empty when present"),
        ),
        is_blank(v@) && wss_target_error(WssTarget { authority_override: None, ..w }) is None
            ==> wss_target_error(WssTarget { authority_override: Some(v), ..w }) == Some(
            ApiError::InvalidServiceDescriptor("WSS authority_override must not be empty when present"),
        ),
{
}

} // verus!

//! The built-in example descriptor and the roots that authorize it.

use vstd::prelude::*;

use crate::constants::{NOISE_SUITE_V1, PROTOCOL_ID_V1, QUIC_ALPN_V1, WSS_SUBPROTOCOL_V1};
use crate::codec::{u16_be, u64_be};
use crate::crypto::{base64_encode, base64_standard_encode, sha256};
use crate::descriptor::{
    CarrierSet, DescriptorSignature, QuicTarget, SelectionPolicy, ServiceDescriptor, TrustAnchor,
    WssTarget,
};
use crate::descriptor_auth::{
    DESCRIPTOR_BODY_DOMAIN_V1, anchors_bytes, body_bytes, body_bytes_with, body_error_with,
    canonical, example_anchor_view, example_signature_bytes, example_trust_anchors,
    EXAMPLE_DESCRIPTOR_SIGNING_KEY, authorization_error, body_error,
    lemma_example_signature_authorizes, lemma_example_signature_keeps_validity,
    sign_example_descriptor, signature_input, signed_by_example,
};
use crate::crypto::{ed25519_public_key_of, ed25519_verifies_strict};
use crate::descriptor_auth::window_error;
use crate::timestamp::lemma_example_window;
use crate::descriptor::{slash_index, wss_authority, wss_scheme, wss_url_ok};
use crate::inner_context::base64_32;
use crate::text::{is_white_space};
use crate::error::{ApiError, ApiResult};
use crate::inner_context::nonzero;
use crate::service_key::{obfuscated_service_static_public_key, service_static_public_key_spec};
use crate::text::lemma_encode_utf8_len;
use crate::transport::CarrierKind;

verus! {

/// Whether `s` holds the content of the example descriptor: version and
/// serial one, a 2024-2027 window, the `secure-tunnel-api` service in `prod`
/// at `api.example.com`, the v1 protocol and suite, the example service key,
/// and a `QUIC` target on port 443 with a `WSS` fallback.
pub open spec fn is_example_content(s: ServiceDescriptor) -> bool {
    &&& s.descriptor_version == 1
    &&& s.descriptor_serial == 1
    &&& s.not_before@ == "2024-01-01T00:00:00Z"@
    &&& s.not_after@ == "2027-01-01T00:00:00Z"@
    &&& s.environment_id@ == "prod"@
    &&& s.service_id@ == "secure-tunnel-api"@
    &&& s.service_authority@ == "api.example.com"@
    &&& s.protocol_id@ == PROTOCOL_ID_V1@
    &&& s.noise_suite@ == NOISE_SUITE_V1@
    &&& s.service_static_public_key@ == base64_standard_encode(service_static_public_key_spec())
    &&& s.selection_policy == SelectionPolicy {
        preferred_carrier: CarrierKind::Quic,
        allow_wss_fallback: true,
    }
    &&& s.carriers.quic matches Some(q) && q.connect_host@ == "api.example.com"@ && q.port == 443
        && q.alpn@ == QUIC_ALPN_V1@ && q.sni_override is None
    &&& s.carriers.wss matches Some(w) && w.url@ == "wss://api.example.com/tunnel/v1"@
        && w.subprotocol@ == WSS_SUBPROTOCOL_V1@ && w.authority_override is None
}

/// Whether `s` carries the example root as its only trust anchor, the base64
/// SHA-256 of its own canonical body as its hash, and the example root's
/// base64 signature over that hash.
pub open spec fn self_signed_by_example(s: ServiceDescriptor) -> bool {
    &&& s.trust_anchors.deep_view() == seq![example_anchor_view()]
    &&& s.signed_descriptor_hash@ == base64_standard_encode(sha256(body_bytes(s)))
    &&& s.descriptor_signature.key_id@ == "root-2026-01"@
    &&& s.descriptor_signature.algorithm@ == "ed25519"@
    &&& s.descriptor_signature.signature@ == base64_standard_encode(
        example_signature_bytes(sha256(body_bytes(s))),
    )
}

/// The canonical body the example root signs for the example descriptor: the
/// example content with the example root as its only trust anchor.
pub open spec fn example_body() -> Seq<u8> {
    DESCRIPTOR_BODY_DOMAIN_V1@ + u16_be(1) + u64_be(1) + canonical("2024-01-01T00:00:00Z"@)
        + canonical("2027-01-01T00:00:00Z"@) + canonical("prod"@) + canonical(
        "secure-tunnel-api"@,
    ) + canonical("api.example.com"@) + canonical(PROTOCOL_ID_V1@) + canonical(NOISE_SUITE_V1@)
        + base64_32(base64_standard_encode(service_static_public_key_spec()))->0 + u16_be(1)
        + anchors_bytes(seq![example_anchor_view()]) + seq![1u8, 1u8] + (seq![1u8] + canonical(
        "api.example.com"@,
    ) + u16_be(443) + canonical(QUIC_ALPN_V1@) + seq![0u8]) + (seq![1u8] + canonical(
        "wss://api.example.com/tunnel/v1"@,
    ) + canonical(WSS_SUBPROTOCOL_V1@) + seq![0u8])
}

/// Every descriptor with the example content has the example body once it
/// carries the example root as its only trust anchor.
pub proof fn lemma_example_content_body(s: ServiceDescriptor)
    requires
        is_example_content(s),
    ensures
        body_bytes_with(s, seq![example_anchor_view()]) == example_body(),
{
    let q = s.carriers.quic->0;
    let w = s.carriers.wss->0;
    assert(crate::descriptor_auth::optional_bytes(q.sni_override) == seq![0u8]);
    assert(crate::descriptor_auth::optional_bytes(w.authority_override) == seq![0u8]);
    assert(seq![example_anchor_view()].len() as u16 == 1u16);
}

/// The first `/` of `s` stands at `k` when no `/` comes before it.
proof fn lemma_slash_index_at(s: Seq<char>, k: int)
    requires
        0 <= k < s.len(),
        s[k] == '/',
        forall|i: int| 0 <= i < k ==> s[i] != '/',
    ensures
        slash_index(s) == k,
    decreases k,
{
    if k > 0 {
        assert(s[0] != '/');
        lemma_slash_index_at(s.drop_first(), k - 1);
    }
}

/// The example's `WSS` URL uses `wss://` with the authority `api.example.com`.
proof fn lemma_example_wss_url_ok()
    ensures
        wss_url_ok("wss://api.example.com/tunnel/v1"@),
{
    reveal_strlit("wss://api.example.com/tunnel/v1");
    let url = "wss://api.example.com/tunnel/v1"@;
    let rest = url.skip(6);
    assert(url.take(6) =~= wss_scheme());
    assert(rest[15] == '/');
    assert forall|i: int| 0 <= i < 15 implies rest[i] != '/' by {
        assert(rest[i] == url[i + 6]);
    }
    lemma_slash_index_at(rest, 15);
    let authority = wss_authority(url);
    assert(authority.len() == 15);
    assert(authority[0] == 'a');
    assert forall|i: int| 0 <= i < authority.len() implies !is_white_space(#[trigger] authority[i]) by {
        assert(authority[i] == rest[i]);
    }
}

/// A descriptor with the example content passes the identity and carrier
/// checks.
pub proof fn lemma_example_content_checks(s: ServiceDescriptor)
    requires
        is_example_content(s),
    ensures
        s.identity_error() is None,
        s.carrier_error() is None,
{
    reveal_strlit("2024-01-01T00:00:00Z");
    reveal_strlit("2027-01-01T00:00:00Z");
    reveal_strlit("prod");
    reveal_strlit("secure-tunnel-api");
    reveal_strlit("api.example.com");
    assert(!is_white_space(s.not_before@[0]));
    assert(!is_white_space(s.not_after@[0]));
    assert(!is_white_space(s.environment_id@[0]));
    assert(!is_white_space(s.service_id@[0]));
    assert(!is_white_space(s.service_authority@[0]));
    let q = s.carriers.quic->0;
    assert(!is_white_space(q.connect_host@[0]));
    lemma_example_wss_url_ok();
}

/// Whether `s` is the example descriptor: the example content, signed by
/// the example root over its own canonical body, with every field of that
/// body fitting its length prefix.
pub open spec fn is_example_descriptor(s: ServiceDescriptor) -> bool {
    &&& is_example_content(s)
    &&& self_signed_by_example(s)
    &&& signed_by_example(s, s)
    &&& body_error(s) is None
}

/// The example descriptor is authorized by the example root at every time
/// inside its window, from 1704067200 (2024-01-01) up to 1798761600
/// (2027-01-01), provided Ed25519's strict verification accepts the
/// signature the example root's key made over the example body's hash.
pub proof fn lemma_example_descriptor_authorized(s: ServiceDescriptor, now: u64)
    requires
        is_example_descriptor(s),
        1704067200 <= now < 1798761600,
        ed25519_verifies_strict(
            ed25519_public_key_of(EXAMPLE_DESCRIPTOR_SIGNING_KEY@),
            signature_input(sha256(example_body())),
            example_signature_bytes(sha256(example_body())),
        ),
    ensures
        authorization_error(s, seq![example_anchor_view()], now) is None,
{
    lemma_example_content_body(s);
    lemma_example_content_checks(s);
    lemma_example_window(now);
    assert(body_error_with(s, seq![example_anchor_view()]) == body_error(s));
    lemma_example_signature_authorizes(s, s, now);
}

/// Returns the trusted roots that authorize the built-in example descriptor.
pub fn example_descriptor_trust_anchors() -> (r: Vec<TrustAnchor>)
    ensures
        r.deep_view() == seq![example_anchor_view()],
{
    example_trust_anchors()
}

/// Returns the sample descriptor with one `QUIC` target and one `WSS`
/// fallback, signed by the built-in example root.
///
/// It is returned exactly when the SHA-256 of the example body is not all
/// zeroes; otherwise signing refuses the zero hash.
pub fn example_service_descriptor() -> (r: ApiResult<ServiceDescriptor>)
    ensures
        r is Ok <==> nonzero(sha256(example_body())),
        r matches Ok(s) ==> is_example_content(s) && self_signed_by_example(s),
        r matches Ok(s) ==> is_example_descriptor(s),
        r matches Ok(s) ==> base64_32(s.service_static_public_key@) == Some(
            service_static_public_key_spec(),
        ),
        r matches Ok(s) ==> s.is_valid(),
        r matches Ok(s) ==> forall|now: u64|
            #![trigger window_error(s.not_before@, s.not_after@, now)]
            window_error(s.not_before@, s.not_after@, now) is None <==> 1704067200 <= now
                < 1798761600,
        r is Err ==> r == Err::<ServiceDescriptor, ApiError>(
            ApiError::InvalidServiceDescriptor("signed_descriptor_hash must not be all zeroes"),
        ),
{
    let key = obfuscated_service_static_public_key();
    let encoded_key = base64_encode(key.as_slice());
    let descriptor = ServiceDescriptor {
        descriptor_version: 1,
        descriptor_serial: 1,
        not_before: "2024-01-01T00:00:00Z".to_owned(),
        not_after: "2027-01-01T00:00:00Z".to_owned(),
        environment_id: "prod".to_owned(),
        service_id: "secure-tunnel-api".to_owned(),
        service_authority: "api.example.com".to_owned(),
        protocol_id: PROTOCOL_ID_V1.to_owned(),
        noise_suite: NOISE_SUITE_V1.to_owned(),
        service_static_public_key: encoded_key,
        signed_descriptor_hash: String::new(),
        descriptor_signature: DescriptorSignature {
            key_id: String::new(),
            algorithm: "ed25519".to_owned(),
            signature: String::new(),
        },
        trust_anchors: Vec::new(),
        selection_policy: SelectionPolicy {
            preferred_carrier: CarrierKind::Quic,
            allow_wss_fallback: true,
        },
        carriers: CarrierSet {
            quic: Some(
                QuicTarget {
                    connect_host: "api.example.com".to_owned(),
                    port: 443,
                    alpn: QUIC_ALPN_V1.to_owned(),
                    sni_override: None,
                },
            ),
            wss: Some(
                WssTarget {
                    url: "wss://api.example.com/tunnel/v1".to_owned(),
                    subprotocol: WSS_SUBPROTOCOL_V1.to_owned(),
                    authority_override: None,
                },
            ),
        },
    };
    let ghost unsigned = descriptor;
    let signed = sign_example_descriptor(descriptor);
    proof {
        reveal_strlit("2024-01-01T00:00:00Z");
        reveal_strlit("2027-01-01T00:00:00Z");
        reveal_strlit("prod");
        reveal_strlit("secure-tunnel-api");
        reveal_strlit("api.example.com");
        reveal_strlit("secure-tunnel-v1");
        reveal_strlit("Noise_NX_25519_ChaChaPoly_BLAKE2s");
        reveal_strlit("wss://api.example.com/tunnel/v1");
        lemma_encode_utf8_len(unsigned.not_before@);
        lemma_encode_utf8_len(unsigned.not_after@);
        lemma_encode_utf8_len(unsigned.environment_id@);
        lemma_encode_utf8_len(unsigned.service_id@);
        lemma_encode_utf8_len(unsigned.service_authority@);
        lemma_encode_utf8_len(unsigned.protocol_id@);
        lemma_encode_utf8_len(unsigned.noise_suite@);
        lemma_encode_utf8_len("api.example.com"@);
        lemma_encode_utf8_len("secure-tunnel-v1"@);
        lemma_encode_utf8_len("wss://api.example.com/tunnel/v1"@);
        assert(key@ =~= service_static_public_key_spec());
        assert(nonzero(key@)) by {
            assert(key@[0] != 0);
        }
        assert(body_error_with(unsigned, seq![example_anchor_view()]) is None);
        assert(is_example_content(unsigned));
        lemma_example_content_body(unsigned);
    }
    match signed {
        Ok(s) => {
            assert(body_bytes(s) == body_bytes_with(unsigned, seq![example_anchor_view()]));
            proof {
                lemma_example_content_body(s);
                lemma_example_content_checks(unsigned);
                lemma_example_signature_keeps_validity(unsigned, s);
                assert forall|now: u64|
                    #![trigger window_error(s.not_before@, s.not_after@, now)]
                    window_error(s.not_before@, s.not_after@, now) is None <==> 1704067200 <= now
                        < 1798761600 by {
                    lemma_example_window(now);
                }
            }
            Ok(s)
        },
        Err(e) => Err(e),
    }
}

} // verus!

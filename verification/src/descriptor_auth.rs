//! Descriptor authorization: the validity window, the canonical descriptor
//! body and its hash, and the root signature over that hash.

use vstd::prelude::*;
use vstd::utf8::encode_utf8;

use crate::codec::{extend_bytes, len_prefixed, u16_be, u16_to_be_bytes, u64_be, u64_to_be_bytes};
use crate::crypto::{
    base64_decode, base64_encode, base64_standard_decode, base64_standard_encode,
    ed25519_public_key_from_seed, ed25519_public_key_of, ed25519_public_key_valid, ed25519_sign,
    ed25519_signature,
    ed25519_verifies_strict, ed25519_verify_strict, sha256, sha256_digest,
};
use crate::descriptor::{
    AnchorView, CarrierSet, DescriptorSignature, QuicTarget, ServiceDescriptor, TrustAnchor,
    WssTarget, as_result, descriptor_hash_error, first_error, invalid, service_key_error,
};
use crate::error::{ApiError, ApiResult};
use crate::inner_context::{
    base64_32, fits_u16, nonzero, parse_service_static_public_key, parse_signed_descriptor_hash,
    put_canonical_str,
};
use crate::text::{is_blank, str_eq};
use crate::trust::{parse_verifying_key, verifying_key_ok};
use crate::timestamp::{parse_rfc3339_utc_seconds, parse_timestamp_spec};
use crate::transport::CarrierKind;

verus! {

/// Domain label of canonical descriptor body bytes.
/// (The ASCII text `secure-tunnel-descriptor-body-v1` followed by a NUL byte.)
pub const DESCRIPTOR_BODY_DOMAIN_V1: [u8; 33] = [115, 101, 99, 117, 114, 101, 45, 116, 117, 110, 110, 101, 108, 45, 100, 101, 115, 99, 114, 105, 112, 116, 111, 114, 45, 98, 111, 100, 121, 45, 118, 49, 0];

/// Domain label of the bytes a descriptor root signature covers.
/// (The ASCII text `secure-tunnel-descriptor-signature-v1` followed by a NUL byte.)
pub const DESCRIPTOR_SIGNATURE_DOMAIN_V1: [u8; 38] = [115, 101, 99, 117, 114, 101, 45, 116, 117, 110, 110, 101, 108, 45, 100, 101, 115, 99, 114, 105, 112, 116, 111, 114, 45, 115, 105, 103, 110, 97, 116, 117, 114, 101, 45, 118, 49, 0];

/// Seed of the built-in example descriptor root, for local fixtures only.
pub const EXAMPLE_DESCRIPTOR_SIGNING_KEY: [u8; 32] = [7, 7, 7, 7, 7, 7, 7, 7, 7, 7, 7, 7, 7, 7, 7, 7, 7, 7, 7, 7, 7, 7, 7, 7, 7, 7, 7, 7, 7, 7, 7, 7];

/// The error the validity window reports at `now`, if any.
pub open spec fn window_error(not_before: Seq<char>, not_after: Seq<char>, now: u64) -> Option<
    ApiError,
> {
    match parse_timestamp_spec(not_before) {
        Err(e) => Some(e),
        Ok(start) => match parse_timestamp_spec(not_after) {
            Err(e) => Some(e),
            Ok(end) => if start >= end {
                invalid("descriptor validity window must be ordered")
            } else if now < start || now >= end {
                invalid("descriptor is outside its validity window")
            } else {
                None
            },
        },
    }
}

/// Verifies descriptor freshness: both timestamps parse, the window is
/// ordered, and `now_unix_seconds` lies in `[not_before, not_after)`.
pub fn validate_descriptor_window(descriptor: &ServiceDescriptor, now_unix_seconds: u64) -> (r:
    ApiResult<()>)
    ensures
        r == as_result(
            window_error(descriptor.not_before@, descriptor.not_after@, now_unix_seconds),
        ),
{
    let not_before = parse_rfc3339_utc_seconds(descriptor.not_before.as_str())?;
    let not_after = parse_rfc3339_utc_seconds(descriptor.not_after.as_str())?;
    if not_before >= not_after {
        return Err(ApiError::InvalidServiceDescriptor("descriptor validity window must be ordered"));
    }
    if now_unix_seconds < not_before || now_unix_seconds >= not_after {
        return Err(ApiError::InvalidServiceDescriptor("descriptor is outside its validity window"));
    }
    Ok(())
}

/// A string as canonical bytes: its UTF-8 bytes after a 16-bit length.
pub open spec fn canonical(s: Seq<char>) -> Seq<u8> {
    len_prefixed(encode_utf8(s))
}

/// Whether each string of a trust anchor fits its length prefix.
pub open spec fn anchor_fits(a: AnchorView) -> bool {
    fits_u16(a.key_id) && fits_u16(a.algorithm) && fits_u16(a.public_key)
}

/// Whether each trust anchor fits.
pub open spec fn anchors_fit(anchors: Seq<AnchorView>) -> bool {
    forall|i: int| 0 <= i < anchors.len() ==> anchor_fits(#[trigger] anchors[i])
}

/// Canonical bytes of one trust anchor.
pub open spec fn anchor_bytes(a: AnchorView) -> Seq<u8> {
    canonical(a.key_id) + canonical(a.algorithm) + canonical(a.public_key)
}

/// Canonical bytes of a list of trust anchors, one after another.
pub open spec fn anchors_bytes(anchors: Seq<AnchorView>) -> Seq<u8>
    decreases anchors.len(),
{
    if anchors.len() == 0 {
        Seq::empty()
    } else {
        anchors_bytes(anchors.drop_last()) + anchor_bytes(anchors.last())
    }
}

/// Whether an optional string fits its length prefix.
pub open spec fn optional_fits(value: Option<String>) -> bool {
    match value {
        Some(s) => fits_u16(s@),
        None => true,
    }
}

/// Canonical bytes of an optional string: a presence byte, then the string.
pub open spec fn optional_bytes(value: Option<String>) -> Seq<u8> {
    match value {
        Some(s) => seq![1u8] + canonical(s@),
        None => seq![0u8],
    }
}

/// Whether each string of a `QUIC` target fits.
pub open spec fn quic_fits(t: QuicTarget) -> bool {
    fits_u16(t.connect_host@) && fits_u16(t.alpn@) && optional_fits(t.sni_override)
}

/// Whether each string of a `WSS` target fits.
pub open spec fn wss_fits(t: WssTarget) -> bool {
    fits_u16(t.url@) && fits_u16(t.subprotocol@) && optional_fits(t.authority_override)
}

/// Whether each string of the carrier targets fits.
pub open spec fn carriers_fit(c: CarrierSet) -> bool {
    &&& (c.quic matches Some(q) ==> quic_fits(q))
    &&& (c.wss matches Some(w) ==> wss_fits(w))
}

/// Canonical bytes of the optional `QUIC` target.
pub open spec fn quic_bytes(q: Option<QuicTarget>) -> Seq<u8> {
    match q {
        Some(t) => seq![1u8] + canonical(t.connect_host@) + u16_be(t.port) + canonical(t.alpn@)
            + optional_bytes(t.sni_override),
        None => seq![0u8],
    }
}

/// Canonical bytes of the optional `WSS` target.
pub open spec fn wss_bytes(w: Option<WssTarget>) -> Seq<u8> {
    match w {
        Some(t) => seq![1u8] + canonical(t.url@) + canonical(t.subprotocol@) + optional_bytes(
            t.authority_override,
        ),
        None => seq![0u8],
    }
}

/// Canonical code of a carrier.
pub open spec fn carrier_code(carrier: CarrierKind) -> u8 {
    match carrier {
        CarrierKind::Quic => 1,
        CarrierKind::Wss => 2,
    }
}

/// Whether each identity string of a descriptor fits its length prefix.
pub open spec fn header_fits(d: ServiceDescriptor) -> bool {
    &&& fits_u16(d.not_before@)
    &&& fits_u16(d.not_after@)
    &&& fits_u16(d.environment_id@)
    &&& fits_u16(d.service_id@)
    &&& fits_u16(d.service_authority@)
    &&& fits_u16(d.protocol_id@)
    &&& fits_u16(d.noise_suite@)
}

/// The error building the canonical body reports when the descriptor carries
/// `anchors` as its trust anchors, if any.
pub open spec fn body_error_with(d: ServiceDescriptor, anchors: Seq<AnchorView>) -> Option<ApiError> {
    if !header_fits(d) {
        invalid("canonical string exceeds u16 length")
    } else if service_key_error(d.service_static_public_key@) is Some {
        service_key_error(d.service_static_public_key@)
    } else if anchors.len() > u16::MAX {
        invalid("canonical count exceeds u16 length")
    } else if !anchors_fit(anchors) || !carriers_fit(d.carriers) {
        invalid("canonical string exceeds u16 length")
    } else {
        None
    }
}

/// Canonical bytes of the identity part of a descriptor body.
pub open spec fn header_bytes(d: ServiceDescriptor) -> Seq<u8> {
    DESCRIPTOR_BODY_DOMAIN_V1@ + u16_be(d.descriptor_version) + u64_be(d.descriptor_serial)
        + canonical(d.not_before@) + canonical(d.not_after@) + canonical(d.environment_id@)
        + canonical(d.service_id@) + canonical(d.service_authority@) + canonical(d.protocol_id@)
        + canonical(d.noise_suite@)
}

/// Canonical descriptor body bytes when the descriptor carries `anchors` as
/// its trust anchors.
pub open spec fn body_bytes_with(d: ServiceDescriptor, anchors: Seq<AnchorView>) -> Seq<u8> {
    header_bytes(d) + base64_32(d.service_static_public_key@)->0 + u16_be(
        anchors.len() as u16,
    ) + anchors_bytes(anchors) + seq![
        carrier_code(d.selection_policy.preferred_carrier),
        if d.selection_policy.allow_wss_fallback {
            1u8
        } else {
            0u8
        },
    ] + quic_bytes(d.carriers.quic) + wss_bytes(d.carriers.wss)
}

/// The error building the descriptor's canonical body reports, if any.
pub open spec fn body_error(d: ServiceDescriptor) -> Option<ApiError> {
    body_error_with(d, d.trust_anchors.deep_view())
}

/// The descriptor's canonical body bytes.
pub open spec fn body_bytes(d: ServiceDescriptor) -> Seq<u8> {
    body_bytes_with(d, d.trust_anchors.deep_view())
}

fn put_count(out: &mut Vec<u8>, count: usize) -> (r: ApiResult<()>)
    ensures
        r is Ok <==> count <= u16::MAX,
        r is Ok ==> final(out)@ == old(out)@ + u16_be(count as u16),
        r is Err ==> r == Err::<(), ApiError>(
            ApiError::InvalidServiceDescriptor("canonical count exceeds u16 length"),
        ),
{
    if count > 65535 {
        return Err(ApiError::InvalidServiceDescriptor("canonical count exceeds u16 length"));
    }
    let bytes = u16_to_be_bytes(count as u16);
    extend_bytes(out, bytes.as_slice());
    Ok(())
}

fn put_optional_str(out: &mut Vec<u8>, value: &Option<String>) -> (r: ApiResult<()>)
    ensures
        r is Ok <==> optional_fits(*value),
        r is Ok ==> final(out)@ == old(out)@ + optional_bytes(*value),
        r is Err ==> r == Err::<(), ApiError>(
            ApiError::InvalidServiceDescriptor("canonical string exceeds u16 length"),
        ),
{
    match value {
        Some(value) => {
            out.push(1);
            let ghost pushed = out@;
            put_canonical_str(out, value.as_str())?;
            assert(out@ =~= old(out)@ + optional_bytes(Some(*value)));
        },
        None => {
            out.push(0);
            assert(out@ =~= old(out)@ + optional_bytes(None));
        },
    }
    Ok(())
}

fn put_trust_anchors(out: &mut Vec<u8>, anchors: &Vec<TrustAnchor>) -> (r: ApiResult<()>)
    ensures
        r is Ok <==> anchors@.len() <= u16::MAX && anchors_fit(anchors.deep_view()),
        r is Ok ==> final(out)@ == old(out)@ + u16_be(anchors@.len() as u16) + anchors_bytes(
            anchors.deep_view(),
        ),
        r is Err ==> r == Err::<(), ApiError>(
            if anchors@.len() > u16::MAX {
                ApiError::InvalidServiceDescriptor("canonical count exceeds u16 length")
            } else {
                ApiError::InvalidServiceDescriptor("canonical string exceeds u16 length")
            },
        ),
{
    put_count(out, anchors.len())?;
    let ghost start = out@;
    let ghost views = anchors.deep_view();
    let mut i: usize = 0;
    assert(views.subrange(0, 0) =~= Seq::<AnchorView>::empty());
    while i < anchors.len()
        invariant
            i <= anchors@.len(),
            views == anchors.deep_view(),
            views.len() == anchors@.len(),
            anchors@.len() <= u16::MAX,
            start == old(out)@ + u16_be(anchors@.len() as u16),
            out@ == start + anchors_bytes(views.subrange(0, i as int)),
            anchors_fit(views.subrange(0, i as int)),
        decreases anchors@.len() - i,
    {
        let anchor = &anchors[i];
        let ghost next = views.subrange(0, i + 1);
        assert(next.drop_last() =~= views.subrange(0, i as int));
        assert(next.last() == anchor@);
        if put_canonical_str(out, anchor.key_id.as_str()).is_err() || put_canonical_str(
            out,
            anchor.algorithm.as_str(),
        ).is_err() || put_canonical_str(out, anchor.public_key.as_str()).is_err() {
            assert(!anchor_fits(views[i as int]));
            return Err(ApiError::InvalidServiceDescriptor("canonical string exceeds u16 length"));
        }
        assert(out@ =~= start + anchors_bytes(next));
        assert forall|j: int| 0 <= j < next.len() implies anchor_fits(#[trigger] next[j]) by {
            if j < i {
                assert(next[j] == views.subrange(0, i as int)[j]);
            }
        }
        i = i + 1;
    }
    assert(views.subrange(0, views.len() as int) =~= views);
    Ok(())
}

fn put_selection_policy(out: &mut Vec<u8>, carrier: CarrierKind)
    ensures
        final(out)@ == old(out)@.push(carrier_code(carrier)),
{
    out.push(
        match carrier {
            CarrierKind::Quic => 1,
            CarrierKind::Wss => 2,
        },
    );
}

fn put_carriers(out: &mut Vec<u8>, carriers: &CarrierSet) -> (r: ApiResult<()>)
    ensures
        r is Ok <==> carriers_fit(*carriers),
        r is Ok ==> final(out)@ == old(out)@ + quic_bytes(carriers.quic) + wss_bytes(carriers.wss),
        r is Err ==> r == Err::<(), ApiError>(
            ApiError::InvalidServiceDescriptor("canonical string exceeds u16 length"),
        ),
{
    match &carriers.quic {
        Some(quic) => {
            out.push(1);
            put_canonical_str(out, quic.connect_host.as_str())?;
            let port = u16_to_be_bytes(quic.port);
            extend_bytes(out, port.as_slice());
            put_canonical_str(out, quic.alpn.as_str())?;
            put_optional_str(out, &quic.sni_override)?;
        },
        None => {
            out.push(0);
        },
    }
    let ghost middle = out@;
    assert(middle =~= old(out)@ + quic_bytes(carriers.quic));
    match &carriers.wss {
        Some(wss) => {
            out.push(1);
            put_canonical_str(out, wss.url.as_str())?;
            put_canonical_str(out, wss.subprotocol.as_str())?;
            put_optional_str(out, &wss.authority_override)?;
        },
        None => {
            out.push(0);
        },
    }
    assert(out@ =~= middle + wss_bytes(carriers.wss));
    Ok(())
}

fn put_body_header(out: &mut Vec<u8>, d: &ServiceDescriptor) -> (r: ApiResult<()>)
    ensures
        r is Ok <==> header_fits(*d),
        r is Ok ==> final(out)@ == old(out)@ + header_bytes(*d),
        r is Err ==> r == Err::<(), ApiError>(
            ApiError::InvalidServiceDescriptor("canonical string exceeds u16 length"),
        ),
{
    extend_bytes(out, DESCRIPTOR_BODY_DOMAIN_V1.as_slice());
    let version = u16_to_be_bytes(d.descriptor_version);
    extend_bytes(out, version.as_slice());
    let serial = u64_to_be_bytes(d.descriptor_serial);
    extend_bytes(out, serial.as_slice());
    put_canonical_str(out, d.not_before.as_str())?;
    put_canonical_str(out, d.not_after.as_str())?;
    put_canonical_str(out, d.environment_id.as_str())?;
    put_canonical_str(out, d.service_id.as_str())?;
    put_canonical_str(out, d.service_authority.as_str())?;
    put_canonical_str(out, d.protocol_id.as_str())?;
    put_canonical_str(out, d.noise_suite.as_str())?;
    assert(out@ =~= old(out)@ + header_bytes(*d));
    Ok(())
}

/// Builds the canonical descriptor body bytes that the descriptor hash covers.
#[verifier::spinoff_prover]
#[verifier::rlimit(40)]
fn descriptor_body_bytes(descriptor: &ServiceDescriptor) -> (r: ApiResult<Vec<u8>>)
    ensures
        r is Ok <==> body_error(*descriptor) is None,
        r matches Ok(v) ==> v@ == body_bytes(*descriptor),
        r is Err ==> r == Err::<Vec<u8>, ApiError>(body_error(*descriptor)->0),
{
    let d = descriptor;
    let mut out: Vec<u8> = Vec::new();
    put_body_header(&mut out, d)?;
    let ghost header = out@;
    let key = parse_service_static_public_key(d.service_static_public_key.as_str())?;
    extend_bytes(&mut out, key.as_slice());
    let ghost keyed = out@;
    put_trust_anchors(&mut out, &d.trust_anchors)?;
    let ghost anchored = out@;
    put_selection_policy(&mut out, d.selection_policy.preferred_carrier);
    out.push(if d.selection_policy.allow_wss_fallback { 1 } else { 0 });
    let ghost policy = out@;
    put_carriers(&mut out, &d.carriers)?;
    assert(out@ =~= body_bytes(*d));
    Ok(out)
}

/// SHA-256 of the canonical descriptor body.
fn descriptor_body_hash(descriptor: &ServiceDescriptor) -> (r: ApiResult<[u8; 32]>)
    ensures
        r is Ok <==> body_error(*descriptor) is None,
        r matches Ok(h) ==> h@ == sha256(body_bytes(*descriptor)),
        r is Err ==> r == Err::<[u8; 32], ApiError>(body_error(*descriptor)->0),
{
    let body = descriptor_body_bytes(descriptor)?;
    Ok(sha256_digest(body.as_slice()))
}

/// The bytes a descriptor root signature covers.
pub open spec fn signature_input(hash: Seq<u8>) -> Seq<u8> {
    DESCRIPTOR_SIGNATURE_DOMAIN_V1@ + hash
}

fn descriptor_signature_input(descriptor_hash: &[u8; 32]) -> (input: Vec<u8>)
    ensures
        input@ == signature_input(descriptor_hash@),
{
    let mut input: Vec<u8> = Vec::new();
    extend_bytes(&mut input, DESCRIPTOR_SIGNATURE_DOMAIN_V1.as_slice());
    extend_bytes(&mut input, descriptor_hash.as_slice());
    input
}

/// Whether a trust anchor carries the key identifier and algorithm a
/// descriptor signature names.
pub open spec fn anchor_matches_signature(a: AnchorView, signature: DescriptorSignature) -> bool {
    a.key_id == signature.key_id@ && a.algorithm == signature.algorithm@
}

/// The first pinned root that a descriptor signature names.
pub open spec fn matching_root(roots: Seq<AnchorView>, signature: DescriptorSignature) -> Option<
    AnchorView,
>
    decreases roots.len(),
{
    if roots.len() == 0 {
        None
    } else if anchor_matches_signature(roots[0], signature) {
        Some(roots[0])
    } else {
        matching_root(roots.drop_first(), signature)
    }
}

/// Whether a list of trust anchors holds one equal to `a`.
pub open spec fn anchors_contain(anchors: Seq<AnchorView>, a: AnchorView) -> bool {
    exists|i: int| 0 <= i < anchors.len() && anchors[i] == a
}

/// The error checking the root signature of a descriptor against pinned
/// roots reports, if any.
pub open spec fn signature_check_error(d: ServiceDescriptor, roots: Seq<AnchorView>) -> Option<
    ApiError,
> {
    let signature = d.descriptor_signature;
    if roots.len() == 0 {
        invalid("at least one pinned descriptor trust anchor is required")
    } else if signature.algorithm@ != "ed25519"@ {
        invalid("descriptor_signature algorithm must be ed25519")
    } else {
        match matching_root(roots, signature) {
            None => invalid("descriptor signature key must match a pinned trust anchor"),
            Some(root) => if !anchors_contain(d.trust_anchors.deep_view(), root) {
                invalid("descriptor trust anchors must include the pinned signing root")
            } else if !verifying_key_ok(root.public_key) {
                invalid("pinned descriptor trust anchor must be a valid Ed25519 key")
            } else {
                match base64_standard_decode(encode_utf8(signature.signature@)) {
                    None => invalid("descriptor_signature must be base64"),
                    Some(signature_bytes) => if signature_bytes.len() != 64 {
                        invalid("descriptor_signature must be 64 bytes")
                    } else if descriptor_hash_error(d.signed_descriptor_hash@) is Some {
                        descriptor_hash_error(d.signed_descriptor_hash@)
                    } else if !ed25519_verifies_strict(
                        base64_32(root.public_key)->0,
                        signature_input(base64_32(d.signed_descriptor_hash@)->0),
                        signature_bytes,
                    ) {
                        invalid("descriptor_signature is invalid")
                    } else {
                        None
                    },
                }
            },
        }
    }
}

/// The error checking the stated descriptor hash against the canonical body
/// reports, if any.
pub open spec fn hash_check_error(d: ServiceDescriptor) -> Option<ApiError> {
    if descriptor_hash_error(d.signed_descriptor_hash@) is Some {
        descriptor_hash_error(d.signed_descriptor_hash@)
    } else if body_error(d) is Some {
        body_error(d)
    } else if sha256(body_bytes(d)) != base64_32(d.signed_descriptor_hash@)->0 {
        invalid("signed_descriptor_hash must match the canonical descriptor body")
    } else {
        None
    }
}

/// The error authorizing a descriptor against pinned roots at `now` reports:
/// structure first, then the validity window, the body hash and the root
/// signature.
pub open spec fn authorization_error(d: ServiceDescriptor, roots: Seq<AnchorView>, now: u64) -> Option<
    ApiError,
> {
    first_error(
        d.validation_error(),
        first_error(
            window_error(d.not_before@, d.not_after@, now),
            first_error(hash_check_error(d), signature_check_error(d, roots)),
        ),
    )
}

fn validate_signature_algorithm(algorithm: &str) -> (r: ApiResult<()>)
    ensures
        r is Ok <==> algorithm@ == "ed25519"@,
        r is Err ==> r == Err::<(), ApiError>(
            ApiError::InvalidServiceDescriptor("descriptor_signature algorithm must be ed25519"),
        ),
{
    if str_eq(algorithm, "ed25519") {
        Ok(())
    } else {
        Err(ApiError::InvalidServiceDescriptor("descriptor_signature algorithm must be ed25519"))
    }
}

fn find_matching_root<'a>(roots: &'a [TrustAnchor], signature: &DescriptorSignature) -> (r: Option<
    &'a TrustAnchor,
>)
    ensures
        match matching_root(roots.deep_view(), *signature) {
            None => r is None,
            Some(v) => r matches Some(a) && a@ == v,
        },
        r matches Some(a) ==> anchor_matches_signature(a@, *signature),
{
    let ghost views = roots.deep_view();
    let mut i: usize = 0;
    assert(views.subrange(0, views.len() as int) =~= views);
    while i < roots.len()
        invariant
            i <= roots@.len(),
            views == roots.deep_view(),
            views.len() == roots@.len(),
            matching_root(views, *signature) == matching_root(
                views.subrange(i as int, views.len() as int),
                *signature,
            ),
        decreases roots@.len() - i,
    {
        let ghost rest = views.subrange(i as int, views.len() as int);
        assert(rest.drop_first() =~= views.subrange(i + 1, views.len() as int));
        assert(rest[0] == roots@[i as int]@);
        let anchor = &roots[i];
        if anchor.key_id == signature.key_id && anchor.algorithm == signature.algorithm {
            return Some(anchor);
        }
        i = i + 1;
    }
    assert(views.subrange(i as int, views.len() as int).len() == 0);
    None
}

/// Whether two trust anchors say the same thing.
fn same_anchor(a: &TrustAnchor, b: &TrustAnchor) -> (eq: bool)
    ensures
        eq <==> a@ == b@,
{
    a.key_id == b.key_id && a.algorithm == b.algorithm && a.public_key == b.public_key
}

fn anchors_include(anchors: &Vec<TrustAnchor>, root: &TrustAnchor) -> (b: bool)
    ensures
        b == anchors_contain(anchors.deep_view(), root@),
{
    let ghost views = anchors.deep_view();
    let mut i: usize = 0;
    while i < anchors.len()
        invariant
            i <= anchors@.len(),
            views == anchors.deep_view(),
            views.len() == anchors@.len(),
            forall|j: int| 0 <= j < i ==> views[j] != root@,
        decreases anchors@.len() - i,
    {
        assert(views[i as int] == anchors@[i as int]@);
        if same_anchor(&anchors[i], root) {
            return true;
        }
        i = i + 1;
    }
    false
}

/// A 64-byte array holding the bytes of `v`.
fn to_array_64(v: &Vec<u8>) -> (out: [u8; 64])
    requires
        v@.len() == 64,
    ensures
        out@ == v@,
{
    let mut out = [0u8; 64];
    let mut i: usize = 0;
    while i < 64
        invariant
            i <= 64,
            v@.len() == 64,
            forall|j: int| 0 <= j < i ==> out@[j] == v@[j],
        decreases 64 - i,
    {
        out[i] = v[i];
        i = i + 1;
    }
    assert(out@ =~= v@);
    out
}

fn verify_descriptor_signature(descriptor: &ServiceDescriptor, trusted_roots: &[TrustAnchor]) -> (r:
    ApiResult<()>)
    ensures
        r == as_result(signature_check_error(*descriptor, trusted_roots.deep_view())),
{
    if trusted_roots.len() == 0 {
        return Err(
            ApiError::InvalidServiceDescriptor(
                "at least one pinned descriptor trust anchor is required",
            ),
        );
    }
    let signature = &descriptor.descriptor_signature;
    validate_signature_algorithm(signature.algorithm.as_str())?;
    let root = match find_matching_root(trusted_roots, signature) {
        Some(root) => root,
        None => {
            return Err(
                ApiError::InvalidServiceDescriptor(
                    "descriptor signature key must match a pinned trust anchor",
                ),
            );
        },
    };
    if !anchors_include(&descriptor.trust_anchors, root) {
        return Err(
            ApiError::InvalidServiceDescriptor(
                "descriptor trust anchors must include the pinned signing root",
            ),
        );
    }
    assert(root.algorithm@ == "ed25519"@);
    let verifying_key = match parse_verifying_key(root) {
        Ok(key) => key,
        Err(_) => {
            return Err(
                ApiError::InvalidServiceDescriptor(
                    "pinned descriptor trust anchor must be a valid Ed25519 key",
                ),
            );
        },
    };
    let text = signature.signature.as_str().as_bytes();
    assert(text@ == encode_utf8(signature.signature@));
    let signature_bytes = match base64_decode(text) {
        Ok(bytes) => bytes,
        Err(_) => {
            return Err(ApiError::InvalidServiceDescriptor("descriptor_signature must be base64"));
        },
    };
    if signature_bytes.len() != 64 {
        return Err(ApiError::InvalidServiceDescriptor("descriptor_signature must be 64 bytes"));
    }
    let signature_array = to_array_64(&signature_bytes);
    let hash = parse_signed_descriptor_hash(descriptor.signed_descriptor_hash.as_str())?;
    let input = descriptor_signature_input(&hash);
    if !ed25519_verify_strict(&verifying_key, input.as_slice(), &signature_array) {
        return Err(ApiError::InvalidServiceDescriptor("descriptor_signature is invalid"));
    }
    Ok(())
}

/// Whether two 32-byte values are equal.
fn bytes32_eq(a: &[u8; 32], b: &[u8; 32]) -> (eq: bool)
    ensures
        eq <==> a@ == b@,
{
    let mut i: usize = 0;
    while i < 32
        invariant
            i <= 32,
            forall|j: int| 0 <= j < i ==> a@[j] == b@[j],
        decreases 32 - i,
    {
        if a[i] != b[i] {
            return false;
        }
        i = i + 1;
    }
    assert(a@ =~= b@);
    true
}

fn verify_descriptor_hash(descriptor: &ServiceDescriptor) -> (r: ApiResult<()>)
    ensures
        r == as_result(hash_check_error(*descriptor)),
{
    let expected = parse_signed_descriptor_hash(descriptor.signed_descriptor_hash.as_str())?;
    let actual = descriptor_body_hash(descriptor)?;
    if !bytes32_eq(&actual, &expected) {
        return Err(
            ApiError::InvalidServiceDescriptor(
                "signed_descriptor_hash must match the canonical descriptor body",
            ),
        );
    }
    Ok(())
}

/// Verifies a descriptor against pinned roots at a timestamp: its structure,
/// its validity window, the canonical body hash and the root signature, and
/// fails with the error of the first check that does not pass.
pub fn authorize_descriptor_at(
    descriptor: &ServiceDescriptor,
    trusted_roots: &[TrustAnchor],
    now_unix_seconds: u64,
) -> (r: ApiResult<()>)
    ensures
        r == as_result(
            authorization_error(*descriptor, trusted_roots.deep_view(), now_unix_seconds),
        ),
{
    descriptor.validate()?;
    validate_descriptor_window(descriptor, now_unix_seconds)?;
    verify_descriptor_hash(descriptor)?;
    verify_descriptor_signature(descriptor, trusted_roots)
}

/// The trust anchor of the built-in example root.
pub open spec fn example_anchor_view() -> AnchorView {
    AnchorView {
        key_id: "root-2026-01"@,
        algorithm: "ed25519"@,
        public_key: base64_standard_encode(ed25519_public_key_of(EXAMPLE_DESCRIPTOR_SIGNING_KEY@)),
    }
}

/// The hash the example root signs for `d`: the canonical body of `d`
/// carrying the example root as its only trust anchor.
pub open spec fn example_body_hash(d: ServiceDescriptor) -> Seq<u8> {
    sha256(body_bytes_with(d, seq![example_anchor_view()]))
}

/// The example root's signature bytes over the signature input of `hash`.
pub open spec fn example_signature_bytes(hash: Seq<u8>) -> Seq<u8> {
    ed25519_signature(EXAMPLE_DESCRIPTOR_SIGNING_KEY@, signature_input(hash))
}

/// Whether the fields that signing leaves alone are the same in both.
pub open spec fn same_unsigned_fields(a: ServiceDescriptor, b: ServiceDescriptor) -> bool {
    &&& a.descriptor_version == b.descriptor_version
    &&& a.descriptor_serial == b.descriptor_serial
    &&& a.not_before == b.not_before
    &&& a.not_after == b.not_after
    &&& a.environment_id == b.environment_id
    &&& a.service_id == b.service_id
    &&& a.service_authority == b.service_authority
    &&& a.protocol_id == b.protocol_id
    &&& a.noise_suite == b.noise_suite
    &&& a.service_static_public_key == b.service_static_public_key
    &&& a.selection_policy == b.selection_policy
    &&& a.carriers == b.carriers
}

/// Whether `s` is `d` signed by the example root: the example root as the only
/// trust anchor, the base64 hash of the canonical body, and the example
/// root's base64 signature over that hash, with what those texts decode to.
pub open spec fn signed_by_example(d: ServiceDescriptor, s: ServiceDescriptor) -> bool {
    let hash = example_body_hash(d);
    let signature = example_signature_bytes(hash);
    let public_key = ed25519_public_key_of(EXAMPLE_DESCRIPTOR_SIGNING_KEY@);
    &&& same_unsigned_fields(d, s)
    &&& s.trust_anchors.deep_view() == seq![example_anchor_view()]
    &&& s.signed_descriptor_hash@ == base64_standard_encode(hash)
    &&& s.descriptor_signature.key_id@ == "root-2026-01"@
    &&& s.descriptor_signature.algorithm@ == "ed25519"@
    &&& s.descriptor_signature.signature@ == base64_standard_encode(signature)
    &&& hash.len() == 32
    &&& nonzero(hash)
    &&& signature.len() == 64
    &&& public_key.len() == 32
    &&& base64_32(s.signed_descriptor_hash@) == Some(hash)
    &&& base64_standard_decode(encode_utf8(s.descriptor_signature.signature@)) == Some(signature)
    &&& base64_32(example_anchor_view().public_key) == Some(public_key)
    &&& ed25519_public_key_valid(public_key)
    &&& !is_blank(s.descriptor_signature.signature@)
    &&& fits_u16(example_anchor_view().public_key)
}

/// A one-element list holding the example root's trust anchor.
fn example_anchor_list() -> (r: Vec<TrustAnchor>)
    ensures
        r.deep_view() == seq![example_anchor_view()],
        fits_u16(example_anchor_view().public_key),
        anchor_fits(example_anchor_view()),
        ed25519_public_key_of(EXAMPLE_DESCRIPTOR_SIGNING_KEY@).len() == 32,
        base64_32(example_anchor_view().public_key) == Some(
            ed25519_public_key_of(EXAMPLE_DESCRIPTOR_SIGNING_KEY@),
        ),
        ed25519_public_key_valid(ed25519_public_key_of(EXAMPLE_DESCRIPTOR_SIGNING_KEY@)),
{
    let public_key = ed25519_public_key_from_seed(&EXAMPLE_DESCRIPTOR_SIGNING_KEY);
    let encoded = base64_encode(public_key.as_slice());
    proof {
        crate::text::lemma_encode_utf8_len(encoded@);
        reveal_strlit("root-2026-01");
        reveal_strlit("ed25519");
        crate::text::lemma_encode_utf8_len("root-2026-01"@);
        crate::text::lemma_encode_utf8_len("ed25519"@);
    }
    let anchor = TrustAnchor {
        key_id: "root-2026-01".to_owned(),
        algorithm: "ed25519".to_owned(),
        public_key: encoded,
    };
    let mut anchors: Vec<TrustAnchor> = Vec::new();
    anchors.push(anchor);
    assert(anchors.deep_view() =~= seq![example_anchor_view()]);
    anchors
}

/// Returns the trusted roots that authorize descriptors signed by the
/// built-in example root.
pub fn example_trust_anchors() -> (r: Vec<TrustAnchor>)
    ensures
        r.deep_view() == seq![example_anchor_view()],
{
    example_anchor_list()
}

/// Whether no character of `s` is white space, given that all are base64.
proof fn lemma_base64_text_not_blank(s: Seq<char>)
    requires
        s.len() > 0,
        forall|i: int| 0 <= i < s.len() ==> crate::crypto::base64_standard_char(#[trigger] s[i]),
    ensures
        !is_blank(s),
{
    assert(crate::crypto::base64_standard_char(s[0]));
    assert(!crate::text::is_white_space(s[0]));
}

/// Signs a descriptor with the built-in example root, for local fixtures.
///
/// Replaces the trust anchors with the example root, sets the descriptor
/// hash to the base64 SHA-256 of the canonical body, and the signature to the
/// example root's base64 Ed25519 signature over that hash. Fails when the
/// canonical body cannot be built, and when the body hash is all zeroes.
pub fn sign_example_descriptor(descriptor: ServiceDescriptor) -> (r: ApiResult<ServiceDescriptor>)
    ensures
        body_error_with(descriptor, seq![example_anchor_view()]) is Some ==> r == Err::<
            ServiceDescriptor,
            ApiError,
        >(body_error_with(descriptor, seq![example_anchor_view()])->0),
        body_error_with(descriptor, seq![example_anchor_view()]) is None ==> (r is Ok <==> nonzero(
            example_body_hash(descriptor),
        )),
        body_error_with(descriptor, seq![example_anchor_view()]) is None && !nonzero(
            example_body_hash(descriptor),
        ) ==> r == Err::<ServiceDescriptor, ApiError>(
            ApiError::InvalidServiceDescriptor("signed_descriptor_hash must not be all zeroes"),
        ),
        r matches Ok(s) ==> signed_by_example(descriptor, s),
        fits_u16(example_anchor_view().public_key),
        anchor_fits(example_anchor_view()),
{
    let mut descriptor = descriptor;
    let ghost unsigned = descriptor;
    descriptor.trust_anchors = example_anchor_list();
    assert(body_error(descriptor) == body_error_with(unsigned, seq![example_anchor_view()]));
    assert(body_bytes(descriptor) == body_bytes_with(unsigned, seq![example_anchor_view()]));
    let hash = descriptor_body_hash(&descriptor)?;
    let encoded_hash = base64_encode(hash.as_slice());
    assert(base64_32(encoded_hash@) == Some(hash@));
    descriptor.signed_descriptor_hash = encoded_hash;
    let hash_bytes = parse_signed_descriptor_hash(descriptor.signed_descriptor_hash.as_str())?;
    let input = descriptor_signature_input(&hash_bytes);
    let signature_bytes = ed25519_sign(&EXAMPLE_DESCRIPTOR_SIGNING_KEY, input.as_slice());
    let encoded_signature = base64_encode(signature_bytes.as_slice());
    proof {
        lemma_base64_text_not_blank(encoded_signature@);
    }
    descriptor.descriptor_signature = DescriptorSignature {
        key_id: "root-2026-01".to_owned(),
        algorithm: "ed25519".to_owned(),
        signature: encoded_signature,
    };
    Ok(descriptor)
}

/// The example root's trust anchor passes anchor validation.
proof fn lemma_example_anchor_valid(d: ServiceDescriptor, s: ServiceDescriptor)
    requires
        signed_by_example(d, s),
    ensures
        crate::descriptor::anchors_error(s.trust_anchors.deep_view()) is None,
        crate::descriptor::signature_error(s.descriptor_signature) is None,
        verifying_key_ok(example_anchor_view().public_key),
{
    let ex = example_anchor_view();
    reveal_strlit("root-2026-01");
    assert(!is_blank(ex.key_id)) by {
        assert(!crate::text::is_white_space(ex.key_id[0]));
    }
    assert(!is_blank(s.descriptor_signature.key_id@)) by {
        assert(!crate::text::is_white_space(s.descriptor_signature.key_id@[0]));
    }
    assert(crate::descriptor::anchor_error(ex) is None);
    assert(seq![ex].drop_first() =~= Seq::<AnchorView>::empty());
    assert(seq![ex][0] == ex);
    assert(crate::descriptor::anchors_error(Seq::<AnchorView>::empty()) is None);
    assert(crate::descriptor::anchors_error(seq![ex]) is None);
}

/// A descriptor signed by the example root passes structural validation
/// when its unsigned content does.
pub proof fn lemma_example_signature_keeps_validity(d: ServiceDescriptor, s: ServiceDescriptor)
    requires
        signed_by_example(d, s),
        d.identity_error() is None,
        d.carrier_error() is None,
        body_error_with(d, seq![example_anchor_view()]) is None,
    ensures
        s.is_valid(),
{
    lemma_example_anchor_valid(d, s);
    assert(s.identity_error() == d.identity_error());
    assert(s.carrier_error() == d.carrier_error());
    assert(s.trust_error() is None);
}

/// The hash that example signing writes into a descriptor matches the
/// descriptor's canonical body.
pub proof fn lemma_example_signature_hash_matches(d: ServiceDescriptor, s: ServiceDescriptor)
    requires
        signed_by_example(d, s),
        body_error_with(d, seq![example_anchor_view()]) is None,
    ensures
        hash_check_error(s) is None,
{
    assert(body_error(s) == body_error_with(d, seq![example_anchor_view()]));
    assert(body_bytes(s) == body_bytes_with(d, seq![example_anchor_view()]));
}

/// The signature that example signing writes into a descriptor checks
/// against the example root, when Ed25519's strict verification accepts
/// the signature the example key made.
pub proof fn lemma_example_signature_checks(d: ServiceDescriptor, s: ServiceDescriptor)
    requires
        signed_by_example(d, s),
        ed25519_verifies_strict(
            ed25519_public_key_of(EXAMPLE_DESCRIPTOR_SIGNING_KEY@),
            signature_input(example_body_hash(d)),
            example_signature_bytes(example_body_hash(d)),
        ),
    ensures
        signature_check_error(s, seq![example_anchor_view()]) is None,
{
    let ex = example_anchor_view();
    lemma_example_anchor_valid(d, s);
    assert(matching_root(seq![ex], s.descriptor_signature) == Some(ex));
    assert(anchors_contain(s.trust_anchors.deep_view(), ex)) by {
        assert(s.trust_anchors.deep_view()[0] == ex);
    }
}

/// A descriptor signed by the example root is authorized against the
/// example root at any time inside its validity window, provided its
/// unsigned content is valid and Ed25519's strict verification accepts the
/// signature the example root's key made.
pub proof fn lemma_example_signature_authorizes(d: ServiceDescriptor, s: ServiceDescriptor, now: u64)
    requires
        signed_by_example(d, s),
        d.identity_error() is None,
        d.carrier_error() is None,
        body_error_with(d, seq![example_anchor_view()]) is None,
        window_error(d.not_before@, d.not_after@, now) is None,
        ed25519_verifies_strict(
            ed25519_public_key_of(EXAMPLE_DESCRIPTOR_SIGNING_KEY@),
            signature_input(example_body_hash(d)),
            example_signature_bytes(example_body_hash(d)),
        ),
    ensures
        authorization_error(s, seq![example_anchor_view()], now) is None,
{
    lemma_example_signature_keeps_validity(d, s);
    lemma_example_signature_hash_matches(d, s);
    lemma_example_signature_checks(d, s);
}

/// Every anchor of a list without anchor errors passes anchor validation.
proof fn lemma_contained_anchor_valid(anchors: Seq<AnchorView>, a: AnchorView)
    requires
        crate::descriptor::anchors_error(anchors) is None,
        anchors_contain(anchors, a),
    ensures
        crate::descriptor::anchor_error(a) is None,
    decreases anchors.len(),
{
    let i = choose|i: int| 0 <= i < anchors.len() && anchors[i] == a;
    if i > 0 {
        let rest = anchors.drop_first();
        assert(rest[i - 1] == a);
        lemma_contained_anchor_valid(rest, a);
    }
}

/// A descriptor is authorized against pinned roots at `now` exactly when it
/// passes validation, `now` lies in its validity window, its stated hash is
/// the SHA-256 of its canonical body, and the first pinned root its
/// signature names is among its own trust anchors and strictly verifies its
/// 64-byte base64 signature over the signature domain and that hash.
pub proof fn lemma_authorization_iff(d: ServiceDescriptor, roots: Seq<AnchorView>, now: u64)
    ensures
        authorization_error(d, roots, now) is None <==> {
            let signature = base64_standard_decode(encode_utf8(d.descriptor_signature.signature@));
            &&& d.is_valid()
            &&& window_error(d.not_before@, d.not_after@, now) is None
            &&& body_error(d) is None
            &&& base64_32(d.signed_descriptor_hash@) == Some(sha256(body_bytes(d)))
            &&& matching_root(roots, d.descriptor_signature) matches Some(root)
            &&& anchors_contain(d.trust_anchors.deep_view(), root)
            &&& signature matches Some(bytes)
            &&& bytes.len() == 64
            &&& ed25519_verifies_strict(
                base64_32(root.public_key)->0,
                signature_input(sha256(body_bytes(d))),
                bytes,
            )
        },
{
    if d.is_valid() {
        if let Some(root) = matching_root(roots, d.descriptor_signature) {
            if anchors_contain(d.trust_anchors.deep_view(), root) {
                lemma_contained_anchor_valid(d.trust_anchors.deep_view(), root);
            }
        }
        lemma_matching_root_in(roots, d.descriptor_signature);
    }
}

/// The root `matching_root` picks is one of the roots, and names the
/// signature's key and algorithm.
proof fn lemma_matching_root_in(roots: Seq<AnchorView>, signature: DescriptorSignature)
    ensures
        matching_root(roots, signature) matches Some(r) ==> roots.len() > 0
            && anchor_matches_signature(r, signature),
    decreases roots.len(),
{
    if roots.len() > 0 && !anchor_matches_signature(roots[0], signature) {
        lemma_matching_root_in(roots.drop_first(), signature);
    }
}

} // verus!

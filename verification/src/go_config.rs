//! The client configuration the Go binding takes as JSON: base64 texts for
//! the outer roots and pinned keys, and the SDK client configuration it
//! settles into.

use vstd::prelude::*;

use vstd::utf8::encode_utf8;

use crate::client_config::{SdkClientConfig, TransportPolicyConfig};
use crate::crypto::{base64_decode, base64_standard_decode, decode_error_text};
use crate::descriptor::TrustAnchor;
use crate::inner_context::{NoisePublicKey, base64_32};

verus! {

/// The Go binding's client configuration, its texts still base64.
#[derive(Debug)]
pub struct GoClientConfig {
    /// Transport timeouts and delays, or none for the SDK's defaults.
    pub transport_policy: Option<TransportPolicyConfig>,
    /// Base64 of DER-encoded outer TLS roots added to platform trust.
    pub outer_root_certificates_der_b64: Vec<String>,
    /// Pinned descriptor roots that may authorize service descriptors.
    pub descriptor_trust_anchors: Vec<TrustAnchor>,
    /// Base64 of the accepted service static public keys.
    pub pinned_service_static_public_keys_b64: Vec<String>,
}

/// The error text for a pinned key that does not decode to 32 bytes.
pub const SERVICE_PIN_LENGTH_ERROR: &'static str = "service static public key must be 32 bytes";

/// What a base64 text decodes to, if anything.
pub open spec fn b64_of(text: Seq<char>) -> Option<Seq<u8>> {
    base64_standard_decode(encode_utf8(text))
}

/// Whether every text of `values` decodes.
pub open spec fn all_decode(values: Seq<String>) -> bool {
    forall|i: int| 0 <= i < values.len() ==> b64_of((#[trigger] values[i])@) is Some
}

/// Whether every text of `values` decodes to 32 bytes.
pub open spec fn all_pins(values: Seq<String>) -> bool {
    forall|i: int| 0 <= i < values.len() ==> base64_32((#[trigger] values[i])@) is Some
}

/// Decodes base64 texts, in order; the first that does not decode fails
/// with the crate's text for its error.
pub fn decode_b64_vecs(values: &Vec<String>) -> (r: Result<Vec<Vec<u8>>, String>)
    ensures
        r is Ok <==> all_decode(values@),
        r matches Ok(v) ==> v@.len() == values@.len() && forall|i: int|
            0 <= i < values@.len() ==> Some((#[trigger] v@[i])@) == b64_of(values@[i]@),
{
    let mut out: Vec<Vec<u8>> = Vec::new();
    let mut i: usize = 0;
    while i < values.len()
        invariant
            i <= values@.len(),
            out@.len() == i,
            all_decode(values@.take(i as int)),
            forall|j: int| 0 <= j < i ==> Some((#[trigger] out@[j])@) == b64_of(values@[j]@),
        decreases values@.len() - i,
    {
        let text = values[i].as_str().as_bytes();
        match base64_decode(text) {
            Ok(bytes) => {
                out.push(bytes);
            },
            Err(error) => {
                assert(!all_decode(values@)) by {
                    assert(b64_of(values@[i as int]@) is None);
                }
                return Err(decode_error_text(&error));
            },
        }
        i = i + 1;
        assert forall|k: int| 0 <= k < i implies b64_of((#[trigger] values@.take(i as int)[k])@)
            is Some by {
            if k < i - 1 {
                assert(values@.take(i as int)[k] == values@.take(i - 1)[k]);
            }
        }
    }
    assert(values@.take(values@.len() as int) =~= values@);
    Ok(out)
}

/// Decodes pinned service keys, in order: the first text that does not
/// decode fails with the crate's text for its error, and the first that
/// decodes to another length than 32 bytes with `SERVICE_PIN_LENGTH_ERROR`.
pub fn decode_service_pins(values: &Vec<String>) -> (r: Result<Vec<NoisePublicKey>, String>)
    ensures
        r is Ok <==> all_pins(values@),
        r matches Ok(v) ==> v@.len() == values@.len() && forall|i: int|
            0 <= i < values@.len() ==> Some((#[trigger] v@[i])@) == base64_32(values@[i]@),
        r matches Err(e) ==> exists|i: int|
            0 <= i < values@.len() && all_pins(values@.take(i)) && base64_32(
                (#[trigger] values@[i])@,
            ) is None && (b64_of(values@[i]@) is Some ==> e@ == SERVICE_PIN_LENGTH_ERROR@),
{
    let mut out: Vec<NoisePublicKey> = Vec::new();
    let mut i: usize = 0;
    while i < values.len()
        invariant
            i <= values@.len(),
            out@.len() == i,
            all_pins(values@.take(i as int)),
            forall|j: int| 0 <= j < i ==> Some((#[trigger] out@[j])@) == base64_32(values@[j]@),
        decreases values@.len() - i,
    {
        let text = values[i].as_str().as_bytes();
        let bytes = match base64_decode(text) {
            Ok(bytes) => bytes,
            Err(error) => {
                assert(base64_32(values@[i as int]@) is None);
                return Err(decode_error_text(&error));
            },
        };
        if bytes.len() != 32 {
            assert(base64_32(values@[i as int]@) is None);
            return Err(SERVICE_PIN_LENGTH_ERROR.to_owned());
        }
        let mut key = [0u8; 32];
        let mut k: usize = 0;
        while k < 32
            invariant
                k <= 32,
                bytes@.len() == 32,
                forall|j: int| 0 <= j < k ==> key@[j] == bytes@[j],
            decreases 32 - k,
        {
            key[k] = bytes[k];
            k = k + 1;
        }
        assert(key@ =~= bytes@);
        out.push(key);
        i = i + 1;
        assert forall|m: int| 0 <= m < i implies base64_32(
            (#[trigger] values@.take(i as int)[m])@,
        ) is Some by {
            if m < i - 1 {
                assert(values@.take(i as int)[m] == values@.take(i - 1)[m]);
            }
        }
    }
    assert(values@.take(values@.len() as int) =~= values@);
    Ok(out)
}

/// Settles the SDK client configuration of a Go configuration: the
/// timeouts as given or the SDK's defaults; the outer roots decoded, none
/// where the list is empty; the descriptor roots and decoded pinned keys as
/// given, or the SDK's defaults where a list is empty.
///
/// Fails as decoding the outer roots fails, and then as decoding the pinned
/// keys fails.
pub fn into_sdk(config: GoClientConfig) -> (r: Result<SdkClientConfig, String>)
    ensures
        r is Ok <==> all_decode(config.outer_root_certificates_der_b64@) && all_pins(
            config.pinned_service_static_public_keys_b64@,
        ),
        r matches Ok(c) ==> {
            &&& c.transport_policy == config.transport_policy
            &&& config.outer_root_certificates_der_b64@.len() == 0 ==> c.outer_root_certificates_der
                is None
            &&& config.outer_root_certificates_der_b64@.len() > 0 ==> (c.outer_root_certificates_der
                matches Some(roots) && roots@.len() == config.outer_root_certificates_der_b64@.len()
                && forall|i: int|
                0 <= i < roots@.len() ==> Some((#[trigger] roots@[i])@) == b64_of(
                    config.outer_root_certificates_der_b64@[i]@,
                ))
            &&& config.descriptor_trust_anchors@.len() == 0 ==> c.descriptor_trust_anchors is None
            &&& config.descriptor_trust_anchors@.len() > 0 ==> c.descriptor_trust_anchors == Some(
                config.descriptor_trust_anchors,
            )
            &&& config.pinned_service_static_public_keys_b64@.len() == 0
                ==> c.pinned_service_static_public_keys is None
            &&& config.pinned_service_static_public_keys_b64@.len() > 0
                ==> (c.pinned_service_static_public_keys matches Some(keys) && keys@.len()
                == config.pinned_service_static_public_keys_b64@.len() && forall|i: int|
                0 <= i < keys@.len() ==> Some((#[trigger] keys@[i])@) == base64_32(
                    config.pinned_service_static_public_keys_b64@[i]@,
                ))
        },
{
    let outer_roots = decode_b64_vecs(&config.outer_root_certificates_der_b64)?;
    let service_pins = decode_service_pins(&config.pinned_service_static_public_keys_b64)?;
    let outer = if outer_roots.len() == 0 {
        None
    } else {
        Some(outer_roots)
    };
    let anchors = if config.descriptor_trust_anchors.len() == 0 {
        None
    } else {
        Some(config.descriptor_trust_anchors)
    };
    let pins = if service_pins.len() == 0 {
        None
    } else {
        Some(service_pins)
    };
    Ok(
        SdkClientConfig {
            transport_policy: config.transport_policy,
            outer_root_certificates_der: outer,
            descriptor_trust_anchors: anchors,
            pinned_service_static_public_keys: pins,
        },
    )
}

} // verus!

//! The SDK client configuration that the language bindings settle from
//! their own configuration records: transport timeouts, extra outer TLS
//! roots, descriptor roots and pinned service keys, each either given or
//! left to the SDK's default.

use vstd::prelude::*;

use crate::codec::take_fixed;
use crate::descriptor::{AnchorView, TrustAnchor};
use crate::inner_context::NoisePublicKey;

verus! {

/// Transport timeouts and delays of an SDK client.
#[derive(Debug, Clone, Copy, PartialEq, Eq)]
pub struct TransportPolicyConfig {
    /// Seconds before retrying `QUIC` after fallback.
    pub quic_reprobe_delay_seconds: u64,
    /// Milliseconds allowed for the full connect attempt.
    pub connect_timeout_ms: u64,
    /// Milliseconds allowed for `QUIC` carrier setup phases.
    pub quic_connect_timeout_ms: u64,
    /// Milliseconds allowed for the `WSS` handshake.
    pub wss_connect_timeout_ms: u64,
    /// Milliseconds allowed for secure-ready evaluation.
    pub secure_ready_timeout_ms: u64,
    /// Milliseconds allowed for one framed read.
    pub record_read_timeout_ms: u64,
    /// Milliseconds allowed for one framed write.
    pub record_write_timeout_ms: u64,
}

/// The SDK client configuration a binding settles; `None` keeps the SDK's
/// default for that part.
#[derive(Debug, PartialEq, Eq)]
pub struct SdkClientConfig {
    /// Transport timeouts and delays.
    pub transport_policy: Option<TransportPolicyConfig>,
    /// DER-encoded outer TLS roots added to platform trust.
    pub outer_root_certificates_der: Option<Vec<Vec<u8>>>,
    /// Pinned descriptor roots that may authorize service descriptors.
    pub descriptor_trust_anchors: Option<Vec<TrustAnchor>>,
    /// Accepted service static public keys.
    pub pinned_service_static_public_keys: Option<Vec<NoisePublicKey>>,
}

/// The error text for a pinned service key that is not 32 bytes long.
pub const PINNED_KEY_LENGTH_ERROR: &'static str = "pinned service static public keys must be 32 bytes";

/// Whether every key is 32 bytes long.
pub open spec fn all_keys_32(keys: Seq<Vec<u8>>) -> bool {
    forall|i: int| 0 <= i < keys.len() ==> (#[trigger] keys[i])@.len() == 32
}

/// Whether `keys` holds, as fixed arrays, exactly the byte strings of `given`.
pub open spec fn keys_match(keys: Seq<NoisePublicKey>, given: Seq<Vec<u8>>) -> bool {
    &&& keys.len() == given.len()
    &&& forall|i: int| 0 <= i < given.len() ==> (#[trigger] keys[i])@ == given[i]@
}

/// Converts pinned service static keys: `None` when one is not 32 bytes.
pub fn pinned_keys(keys: &Vec<Vec<u8>>) -> (r: Option<Vec<NoisePublicKey>>)
    ensures
        r is Some <==> all_keys_32(keys@),
        r matches Some(v) ==> keys_match(v@, keys@),
{
    let mut out: Vec<NoisePublicKey> = Vec::new();
    let mut i: usize = 0;
    while i < keys.len()
        invariant
            i <= keys@.len(),
            all_keys_32(keys@.take(i as int)),
            keys_match(out@, keys@.take(i as int)),
        decreases keys@.len() - i,
    {
        let key = &keys[i];
        if key.len() != 32 {
            assert(!all_keys_32(keys@)) by {
                assert(keys@[i as int]@.len() != 32);
            }
            return None;
        }
        let mut input = key.as_slice();
        let fixed = match take_fixed::<32>(&mut input) {
            Ok(fixed) => fixed,
            Err(_) => return None,
        };
        assert(key@.take(32) =~= key@);
        out.push(fixed);
        i = i + 1;
        assert(keys@.take(i as int) =~= keys@.take(i - 1).push(keys@[i - 1]));
    }
    assert(keys@.take(keys@.len() as int) =~= keys@);
    Some(out)
}

/// Extra outer TLS roots: none when the list is empty.
pub fn outer_roots(roots: Vec<Vec<u8>>) -> (r: Option<Vec<Vec<u8>>>)
    ensures
        roots@.len() == 0 ==> r is None,
        roots@.len() > 0 ==> r == Some(roots),
{
    if roots.len() == 0 {
        None
    } else {
        Some(roots)
    }
}

/// A descriptor root from its three parts.
pub fn trust_anchor(key_id: &String, algorithm: &String, public_key: &String) -> (a: TrustAnchor)
    ensures
        a@ == (AnchorView { key_id: key_id@, algorithm: algorithm@, public_key: public_key@ }),
{
    TrustAnchor {
        key_id: key_id.clone(),
        algorithm: algorithm.clone(),
        public_key: public_key.clone(),
    }
}

} // verus!

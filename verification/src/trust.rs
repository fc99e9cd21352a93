//! Ed25519 verifying keys carried by descriptor trust anchors.

use vstd::prelude::*;

use crate::codec::CodecError;
use crate::crypto::{ed25519_public_key_is_valid, ed25519_public_key_valid};
use crate::descriptor::TrustAnchor;
use crate::inner_context::{base64_32, decode_base64_32};
use crate::text::str_eq;

verus! {

/// Whether base64 text holds the 32 bytes of an acceptable Ed25519 verifying key.
pub open spec fn verifying_key_ok(public_key: Seq<char>) -> bool {
    match base64_32(public_key) {
        Some(bytes) => ed25519_public_key_valid(bytes),
        None => false,
    }
}

/// Parses the Ed25519 verifying key of a trust anchor into its 32 bytes.
///
/// Fails when the algorithm is not `ed25519`, when the key is not base64 of
/// exactly 32 bytes, or when those bytes are not a valid verifying key.
pub fn parse_verifying_key(anchor: &TrustAnchor) -> (r: Result<[u8; 32], CodecError>)
    ensures
        r is Ok <==> anchor.algorithm@ == "ed25519"@ && verifying_key_ok(anchor.public_key@),
        r matches Ok(k) ==> Some(k@) == base64_32(anchor.public_key@),
        r is Err ==> r == Err::<[u8; 32], CodecError>(CodecError::InvalidUtf8),
{
    if !str_eq(anchor.algorithm.as_str(), "ed25519") {
        return Err(CodecError::InvalidUtf8);
    }
    let bytes = match decode_base64_32(anchor.public_key.as_str()) {
        Some(bytes) => bytes,
        None => {
            return Err(CodecError::InvalidUtf8);
        },
    };
    if !ed25519_public_key_is_valid(&bytes) {
        return Err(CodecError::InvalidUtf8);
    }
    Ok(bytes)
}

} // verus!

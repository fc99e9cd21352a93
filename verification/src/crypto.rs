//! The cryptographic and encoding primitives this library takes from outside
//! crates: standard base64 (`base64`), SHA-256 (`sha2`) and Ed25519
//! (`ed25519-dalek`). Each result is named; nothing here is proved.

use vstd::prelude::*;

use base64::Engine;
use ed25519_dalek::Signer;
use sha2::Digest;

verus! {

/// What `base64::engine::general_purpose::STANDARD.decode` returns for
/// `input`: the decoded bytes, or `None` where it reports a `DecodeError`.
pub uninterp spec fn base64_standard_decode(input: Seq<u8>) -> Option<Seq<u8>>;

/// What `base64::engine::general_purpose::STANDARD.encode` returns for `input`.
pub uninterp spec fn base64_standard_encode(input: Seq<u8>) -> Seq<char>;

/// The SHA-256 digest of `data`, as `sha2::Sha256::digest` computes it.
pub uninterp spec fn sha256(data: Seq<u8>) -> Seq<u8>;

/// Whether `ed25519_dalek::VerifyingKey::from_bytes` accepts `public_key`.
pub uninterp spec fn ed25519_public_key_valid(public_key: Seq<u8>) -> bool;

/// Whether `ed25519_dalek::VerifyingKey::verify_strict` accepts `signature`
/// over `message` for the key whose bytes are `public_key`.
pub uninterp spec fn ed25519_verifies_strict(
    public_key: Seq<u8>,
    message: Seq<u8>,
    signature: Seq<u8>,
) -> bool;

/// The verifying-key bytes of the `ed25519_dalek::SigningKey` made from `seed`.
pub uninterp spec fn ed25519_public_key_of(seed: Seq<u8>) -> Seq<u8>;

/// The signature bytes that the `ed25519_dalek::SigningKey` made from `seed`
/// produces over `message`.
pub uninterp spec fn ed25519_signature(seed: Seq<u8>, message: Seq<u8>) -> Seq<u8>;

#[verifier::external_type_specification]
#[verifier::external_body]
pub struct ExDecodeError(base64::DecodeError);

/// Calls `STANDARD.decode` (`base64` crate, standard alphabet, canonical
/// padding). The contract names the decoded bytes; where the crate reports
/// a `DecodeError` the name is `None`.
#[verifier::external_body]
pub(crate) fn base64_decode(input: &[u8]) -> (r: Result<Vec<u8>, base64::DecodeError>)
    ensures
        r is Ok <==> base64_standard_decode(input@) is Some,
        r matches Ok(v) ==> Some(v@) == base64_standard_decode(input@),
{
    base64::engine::general_purpose::STANDARD.decode(input)
}

/// The text of a `base64::DecodeError`, as its `Display` writes it. Nothing
/// is stated of the text.
#[verifier::external_body]
pub(crate) fn decode_error_text(error: &base64::DecodeError) -> (s: String) {
    error.to_string()
}

/// Whether `c` belongs to the standard base64 alphabet or is its `=` pad.
pub open spec fn base64_standard_char(c: char) -> bool {
    ('A' <= c <= 'Z') || ('a' <= c <= 'z') || ('0' <= c <= '9') || c == '+' || c == '/' || c
        == '='
}

/// Calls `STANDARD.encode` (`base64` crate). The contract names the result
/// and states what the crate documents of it: padded output of four
/// characters per started group of three bytes, drawn from the standard
/// alphabet, which `STANDARD.decode` turns back into `input`. The crate
/// panics when the encoded length overflows `usize`, which the bound in
/// `requires` rules out.
#[verifier::external_body]
pub(crate) fn base64_encode(input: &[u8]) -> (s: String)
    requires
        input@.len() <= usize::MAX / 2,
    ensures
        s@ == base64_standard_encode(input@),
        s@.len() == 4 * ((input@.len() + 2) / 3),
        forall|i: int| 0 <= i < s@.len() ==> base64_standard_char(#[trigger] s@[i]),
        base64_standard_decode(vstd::utf8::encode_utf8(s@)) == Some(input@),
{
    base64::engine::general_purpose::STANDARD.encode(input)
}

/// Calls `sha2::Sha256::digest`. The contract names the digest, whose
/// 32-byte length the array type carries.
#[verifier::external_body]
pub(crate) fn sha256_digest(data: &[u8]) -> (out: [u8; 32])
    ensures
        out@ == sha256(data@),
{
    sha2::Sha256::digest(data).into()
}

/// Calls `ed25519_dalek::VerifyingKey::from_bytes` and reports whether the
/// bytes are an acceptable verifying key.
#[verifier::external_body]
pub(crate) fn ed25519_public_key_is_valid(public_key: &[u8; 32]) -> (b: bool)
    ensures
        b == ed25519_public_key_valid(public_key@),
{
    ed25519_dalek::VerifyingKey::from_bytes(public_key).is_ok()
}

/// Calls `ed25519_dalek::VerifyingKey::verify_strict` on the key parsed by
/// `VerifyingKey::from_bytes` and the signature made by
/// `Signature::from_bytes`. A key that does not parse verifies nothing; the
/// contract states that and otherwise only names the result.
#[verifier::external_body]
pub(crate) fn ed25519_verify_strict(
    public_key: &[u8; 32],
    message: &[u8],
    signature: &[u8; 64],
) -> (b: bool)
    ensures
        b == ed25519_verifies_strict(public_key@, message@, signature@),
        b ==> ed25519_public_key_valid(public_key@),
{
    match ed25519_dalek::VerifyingKey::from_bytes(public_key) {
        Ok(key) => key.verify_strict(message, &ed25519_dalek::Signature::from_bytes(signature)).is_ok(),
        Err(_) => false,
    }
}

/// Calls `ed25519_dalek::SigningKey::from_bytes(seed).verifying_key().to_bytes()`.
/// The contract names the result and states that `VerifyingKey::from_bytes`
/// accepts it: the source computes the key as a curve point and returns its
/// compressed form, which `from_bytes` decompresses, the only check it makes.
#[verifier::external_body]
pub(crate) fn ed25519_public_key_from_seed(seed: &[u8; 32]) -> (public_key: [u8; 32])
    ensures
        public_key@ == ed25519_public_key_of(seed@),
        ed25519_public_key_valid(public_key@),
{
    ed25519_dalek::SigningKey::from_bytes(seed).verifying_key().to_bytes()
}

/// Calls `Signer::sign` on `ed25519_dalek::SigningKey::from_bytes(seed)` and
/// returns the signature bytes. The contract only names the result: that
/// `verify_strict` accepts it is left unsaid, because `verify_strict` refuses
/// a signature whose `R` point has small order, which the signing nonce does
/// not rule out for every message.
#[verifier::external_body]
pub(crate) fn ed25519_sign(seed: &[u8; 32], message: &[u8]) -> (signature: [u8; 64])
    ensures
        signature@ == ed25519_signature(seed@, message@),
{
    ed25519_dalek::SigningKey::from_bytes(seed).sign(message).to_bytes()
}

} // verus!

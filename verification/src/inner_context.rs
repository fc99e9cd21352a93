//! Stable public context bound into the inner Noise prologue and the
//! canonical bytes that device proofs sign.

use vstd::prelude::*;
use vstd::utf8::encode_utf8;

use crate::codec::{len_prefixed, put_len_prefixed_str, u16_be, extend_bytes};
use crate::constants::NOISE_SUITE_V1;
use crate::crypto::{base64_decode, base64_standard_decode};
use crate::error::{ApiError, ApiResult};
use crate::text::{has_control, is_blank, str_eq, str_has_control, str_is_blank};

verus! {

/// Fixed-width X25519 Noise public key bytes.
pub type NoisePublicKey = [u8; 32];
/// Fixed-width descriptor hash bytes.
pub type DescriptorHash = [u8; 32];
/// Fixed-width hash bytes used for account context and channel binding.
pub type Hash32 = [u8; 32];

/// Product label bound into v1 canonical protocol bytes.
pub const PRODUCT_LABEL_V1: &'static str = "secure-tunnel";
/// Inner protocol version bound into v1 canonical protocol bytes.
pub const INNER_PROTOCOL_VERSION_V1: u16 = 1;
/// Domain label for the v1 Noise prologue.
/// (The ASCII text `secure-tunnel-inner-prologue-v1` followed by a NUL byte.)
pub const PROLOGUE_DOMAIN_V1: [u8; 32] = [115, 101, 99, 117, 114, 101, 45, 116, 117, 110, 110, 101, 108, 45, 105, 110, 110, 101, 114, 45, 112, 114, 111, 108, 111, 103, 117, 101, 45, 118, 49, 0];
/// Domain label for v1 device-proof signing bytes.
/// (The ASCII text `secure-tunnel-device-proof-v1` followed by a NUL byte.)
pub const DEVICE_PROOF_DOMAIN_V1: [u8; 30] = [115, 101, 99, 117, 114, 101, 45, 116, 117, 110, 110, 101, 108, 45, 100, 101, 118, 105, 99, 101, 45, 112, 114, 111, 111, 102, 45, 118, 49, 0];

/// Stable public context bound into the inner Noise prologue.
#[derive(Debug, Clone, PartialEq, Eq)]
pub struct InnerChannelContext {
    /// Stable logical service identifier.
    pub service_id: String,
    /// Stable environment identifier.
    pub environment_id: String,
    /// Stable service authority independent of selected carrier.
    pub service_authority: String,
    /// Hash of the signed or pinned descriptor selected by the client.
    pub signed_descriptor_hash: DescriptorHash,
    /// Authorized v1 Noise suite.
    pub allowed_noise_suite: String,
}

/// A label fit to be bound into protocol bytes: not blank, no control characters.
pub open spec fn public_label_ok(s: Seq<char>) -> bool {
    !is_blank(s) && !has_control(s)
}

/// Whether any byte is nonzero.
pub open spec fn nonzero(bytes: Seq<u8>) -> bool {
    exists|i: int| 0 <= i < bytes.len() && bytes[i] != 0
}

/// A string that fits a 16-bit length prefix.
pub open spec fn fits_u16(s: Seq<char>) -> bool {
    encode_utf8(s).len() <= u16::MAX
}

/// Canonical v1 Noise prologue bytes of a context's fields.
pub open spec fn prologue_for(
    service_id: Seq<char>,
    environment_id: Seq<char>,
    service_authority: Seq<char>,
    signed_descriptor_hash: Seq<u8>,
    allowed_noise_suite: Seq<char>,
) -> Seq<u8> {
    PROLOGUE_DOMAIN_V1@ + len_prefixed(encode_utf8(PRODUCT_LABEL_V1@)) + u16_be(
        INNER_PROTOCOL_VERSION_V1,
    ) + len_prefixed(encode_utf8(service_id)) + len_prefixed(encode_utf8(environment_id))
        + len_prefixed(encode_utf8(service_authority)) + signed_descriptor_hash + len_prefixed(
        encode_utf8(allowed_noise_suite),
    )
}

impl InnerChannelContext {
    /// The context's validity: public labels, the v1 suite and a nonzero hash.
    pub open spec fn valid(&self) -> bool {
        &&& public_label_ok(self.service_id@)
        &&& public_label_ok(self.environment_id@)
        &&& public_label_ok(self.service_authority@)
        &&& self.allowed_noise_suite@ == NOISE_SUITE_V1@
        &&& nonzero(self.signed_descriptor_hash@)
    }

    /// The error the first failing validity check reports.
    pub open spec fn validation_error(&self) -> ApiError {
        if !public_label_ok(self.service_id@) || !public_label_ok(self.environment_id@)
            || !public_label_ok(self.service_authority@) {
            ApiError::InvalidServiceDescriptor(
                "public descriptor label must not be empty or contain control characters",
            )
        } else if self.allowed_noise_suite@ != NOISE_SUITE_V1@ {
            ApiError::InvalidServiceDescriptor(
                "allowed_noise_suite must match the v1 Noise suite identifier",
            )
        } else {
            ApiError::InvalidServiceDescriptor("signed_descriptor_hash must not be all zeroes")
        }
    }

    /// Whether every length-prefixed string fits its prefix.
    pub open spec fn strings_fit(&self) -> bool {
        fits_u16(self.service_id@) && fits_u16(self.environment_id@) && fits_u16(
            self.service_authority@,
        ) && fits_u16(self.allowed_noise_suite@)
    }

    /// Canonical v1 Noise prologue bytes of this context.
    pub open spec fn prologue_spec(&self) -> Seq<u8> {
        prologue_for(
            self.service_id@,
            self.environment_id@,
            self.service_authority@,
            self.signed_descriptor_hash@,
            self.allowed_noise_suite@,
        )
    }

    /// Creates a v1 context for canonical prologue construction.
    ///
    /// Fails exactly when a public label is blank or holds a control character,
    /// or the descriptor hash is all zeroes.
    pub fn v1(
        service_id: String,
        environment_id: String,
        service_authority: String,
        signed_descriptor_hash: DescriptorHash,
    ) -> (r: ApiResult<Self>)
        ensures
            r is Ok <==> public_label_ok(service_id@) && public_label_ok(environment_id@)
                && public_label_ok(service_authority@) && nonzero(signed_descriptor_hash@),
            r matches Ok(c) ==> c.service_id == service_id && c.environment_id == environment_id
                && c.service_authority == service_authority && c.signed_descriptor_hash
                == signed_descriptor_hash && c.allowed_noise_suite@ == NOISE_SUITE_V1@ && c.valid(),
            r is Err ==> r == Err::<Self, ApiError>(
                if !public_label_ok(service_id@) || !public_label_ok(environment_id@)
                    || !public_label_ok(service_authority@) {
                    ApiError::InvalidServiceDescriptor(
                        "public descriptor label must not be empty or contain control characters",
                    )
                } else {
                    ApiError::InvalidServiceDescriptor(
                        "signed_descriptor_hash must not be all zeroes",
                    )
                },
            ),
    {
        let context = Self {
            service_id,
            environment_id,
            service_authority,
            signed_descriptor_hash,
            allowed_noise_suite: NOISE_SUITE_V1.to_owned(),
        };
        context.validate()?;
        Ok(context)
    }

    /// Builds the canonical v1 Noise prologue bytes.
    ///
    /// Fails with the validation error when the context is invalid, and with
    /// the canonical-length error when a string exceeds `u16::MAX` bytes.
    pub fn prologue_bytes(&self) -> (r: ApiResult<Vec<u8>>)
        ensures
            r is Ok <==> self.valid() && self.strings_fit(),
            r matches Ok(out) ==> out@ == self.prologue_spec(),
            !self.valid() ==> r == Err::<Vec<u8>, ApiError>(self.validation_error()),
            self.valid() && !self.strings_fit() ==> r == Err::<Vec<u8>, ApiError>(
                ApiError::InvalidServiceDescriptor("canonical string exceeds u16 length"),
            ),
    {
        self.validate()?;
        proof {
            reveal_strlit("secure-tunnel");
            crate::text::lemma_encode_utf8_len(PRODUCT_LABEL_V1@);
        }
        let mut out: Vec<u8> = Vec::new();
        extend_bytes(&mut out, PROLOGUE_DOMAIN_V1.as_slice());
        put_canonical_str(&mut out, PRODUCT_LABEL_V1)?;
        let version = crate::codec::u16_to_be_bytes(INNER_PROTOCOL_VERSION_V1);
        extend_bytes(&mut out, version.as_slice());
        put_canonical_str(&mut out, self.service_id.as_str())?;
        put_canonical_str(&mut out, self.environment_id.as_str())?;
        put_canonical_str(&mut out, self.service_authority.as_str())?;
        extend_bytes(&mut out, self.signed_descriptor_hash.as_slice());
        put_canonical_str(&mut out, self.allowed_noise_suite.as_str())?;
        assert(out@ =~= self.prologue_spec());
        Ok(out)
    }

    fn validate(&self) -> (r: ApiResult<()>)
        ensures
            r is Ok <==> self.valid(),
            r is Err ==> r == Err::<(), ApiError>(self.validation_error()),
    {
        validate_public_label(self.service_id.as_str())?;
        validate_public_label(self.environment_id.as_str())?;
        validate_public_label(self.service_authority.as_str())?;
        if !str_eq(self.allowed_noise_suite.as_str(), NOISE_SUITE_V1) {
            return Err(
                ApiError::InvalidServiceDescriptor(
                    "allowed_noise_suite must match the v1 Noise suite identifier",
                ),
            );
        }
        ensure_nonzero_32(&self.signed_descriptor_hash, "signed_descriptor_hash")
    }
}

/// Appends a length-prefixed string to canonical protocol bytes.
///
/// Fails with the canonical-length error, leaving `out` as it was, when the
/// string exceeds `u16::MAX` bytes.
pub fn put_canonical_str(out: &mut Vec<u8>, value: &str) -> (r: ApiResult<()>)
    ensures
        r is Ok <==> fits_u16(value@),
        r is Ok ==> final(out)@ == old(out)@ + len_prefixed(encode_utf8(value@)),
        r is Err ==> final(out)@ == old(out)@ && r == Err::<(), ApiError>(
            ApiError::InvalidServiceDescriptor("canonical string exceeds u16 length"),
        ),
{
    match put_len_prefixed_str(out, value) {
        Ok(()) => Ok(()),
        Err(_) => Err(ApiError::InvalidServiceDescriptor("canonical string exceeds u16 length")),
    }
}

fn ensure_nonzero_32(value: &[u8; 32], error_field: &'static str) -> (r: ApiResult<()>)
    ensures
        r is Ok <==> nonzero(value@),
        r is Err && error_field@ == "signed_descriptor_hash"@ ==> r == Err::<(), ApiError>(
            ApiError::InvalidServiceDescriptor("signed_descriptor_hash must not be all zeroes"),
        ),
        r is Err && error_field@ == "service_static_public_key"@ ==> r == Err::<(), ApiError>(
            ApiError::InvalidServiceDescriptor("service_static_public_key must not be all zeroes"),
        ),
{
    let mut i: usize = 0;
    while i < 32
        invariant
            i <= 32,
            forall|j: int| 0 <= j < i ==> value@[j] == 0,
        decreases 32 - i,
    {
        if value[i] != 0 {
            return Ok(());
        }
        i = i + 1;
    }
    proof {
        reveal_strlit("signed_descriptor_hash");
        reveal_strlit("service_static_public_key");
        assert("signed_descriptor_hash"@.len() != "service_static_public_key"@.len());
    }
    if str_eq(error_field, "signed_descriptor_hash") {
        Err(ApiError::InvalidServiceDescriptor("signed_descriptor_hash must not be all zeroes"))
    } else if str_eq(error_field, "service_static_public_key") {
        Err(ApiError::InvalidServiceDescriptor("service_static_public_key must not be all zeroes"))
    } else {
        Err(ApiError::InvalidServiceDescriptor("fixed-width value must not be all zeroes"))
    }
}

fn validate_public_label(value: &str) -> (r: ApiResult<()>)
    ensures
        r is Ok <==> public_label_ok(value@),
        r is Err ==> r == Err::<(), ApiError>(
            ApiError::InvalidServiceDescriptor(
                "public descriptor label must not be empty or contain control characters",
            ),
        ),
{
    if str_is_blank(value) || str_has_control(value) {
        return Err(
            ApiError::InvalidServiceDescriptor(
                "public descriptor label must not be empty or contain control characters",
            ),
        );
    }
    Ok(())
}

/// The 32 bytes that a base64 text decodes to, when it decodes to exactly 32.
pub open spec fn base64_32(value: Seq<char>) -> Option<Seq<u8>> {
    match base64_standard_decode(encode_utf8(value)) {
        Some(bytes) => if bytes.len() == 32 {
            Some(bytes)
        } else {
            None
        },
        None => None,
    }
}

/// Parses a base64-encoded nonzero 32-byte service Noise public key.
///
/// Fails with the decode error when the text does not decode to 32 bytes,
/// and with the zero error when those bytes are all zero.
pub fn parse_service_static_public_key(value: &str) -> (r: ApiResult<NoisePublicKey>)
    ensures
        r is Ok <==> base64_32(value@) is Some && nonzero(base64_32(value@)->0),
        r matches Ok(k) ==> Some(k@) == base64_32(value@),
        base64_32(value@) is None ==> r == Err::<NoisePublicKey, ApiError>(
            ApiError::InvalidServiceDescriptor(
                "service_static_public_key must be base64-encoded 32-byte public key",
            ),
        ),
        base64_32(value@) is Some && !nonzero(base64_32(value@)->0) ==> r == Err::<
            NoisePublicKey,
            ApiError,
        >(ApiError::InvalidServiceDescriptor("service_static_public_key must not be all zeroes")),
{
    parse_base64_nonzero_32(
        value,
        "service_static_public_key must be base64-encoded 32-byte public key",
        "service_static_public_key must not be all zeroes",
    )
}

/// Parses a base64-encoded nonzero 32-byte descriptor hash.
///
/// Fails with the decode error when the text does not decode to 32 bytes,
/// and with the zero error when those bytes are all zero.
pub fn parse_signed_descriptor_hash(value: &str) -> (r: ApiResult<DescriptorHash>)
    ensures
        r is Ok <==> base64_32(value@) is Some && nonzero(base64_32(value@)->0),
        r matches Ok(k) ==> Some(k@) == base64_32(value@),
        base64_32(value@) is None ==> r == Err::<DescriptorHash, ApiError>(
            ApiError::InvalidServiceDescriptor(
                "signed_descriptor_hash must be base64-encoded 32-byte hash",
            ),
        ),
        base64_32(value@) is Some && !nonzero(base64_32(value@)->0) ==> r == Err::<
            DescriptorHash,
            ApiError,
        >(ApiError::InvalidServiceDescriptor("signed_descriptor_hash must not be all zeroes")),
{
    parse_base64_nonzero_32(
        value,
        "signed_descriptor_hash must be base64-encoded 32-byte hash",
        "signed_descriptor_hash must not be all zeroes",
    )
}

/// Decodes standard base64 text that must hold exactly 32 bytes.
pub fn decode_base64_32(value: &str) -> (r: Option<[u8; 32]>)
    ensures
        r is Some <==> base64_32(value@) is Some,
        r matches Some(k) ==> Some(k@) == base64_32(value@),
{
    let text = value.as_bytes();
    assert(text@ == encode_utf8(value@));
    let decoded = match base64_decode(text) {
        Ok(decoded) => decoded,
        Err(_) => {
            return None;
        },
    };
    if decoded.len() != 32 {
        return None;
    }
    let mut bytes = [0u8; 32];
    let mut i: usize = 0;
    while i < 32
        invariant
            i <= 32,
            decoded@.len() == 32,
            Some(decoded@) == base64_32(value@),
            forall|j: int| 0 <= j < i ==> bytes@[j] == decoded@[j],
        decreases 32 - i,
    {
        bytes[i] = decoded[i];
        i = i + 1;
    }
    assert(bytes@ =~= decoded@);
    Some(bytes)
}

fn parse_base64_nonzero_32(
    value: &str,
    decode_error: &'static str,
    zero_error: &'static str,
) -> (r: ApiResult<[u8; 32]>)
    ensures
        r is Ok <==> base64_32(value@) is Some && nonzero(base64_32(value@)->0),
        r matches Ok(k) ==> Some(k@) == base64_32(value@),
        base64_32(value@) is None ==> r == Err::<[u8; 32], ApiError>(
            ApiError::InvalidServiceDescriptor(decode_error),
        ),
        base64_32(value@) is Some && !nonzero(base64_32(value@)->0) ==> r == Err::<
            [u8; 32],
            ApiError,
        >(ApiError::InvalidServiceDescriptor(zero_error)),
{
    let bytes = match decode_base64_32(value) {
        Some(bytes) => bytes,
        None => {
            return Err(ApiError::InvalidServiceDescriptor(decode_error));
        },
    };
    let mut k: usize = 0;
    while k < 32
        invariant
            k <= 32,
            Some(bytes@) == base64_32(value@),
            forall|j: int| 0 <= j < k ==> bytes@[j] == 0,
        decreases 32 - k,
    {
        if bytes[k] != 0 {
            assert(bytes@[k as int] != 0);
            return Ok(bytes);
        }
        k = k + 1;
    }
    Err(ApiError::InvalidServiceDescriptor(zero_error))
}

} // verus!

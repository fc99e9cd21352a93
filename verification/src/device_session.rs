//! Known-device authentication and new-device enrollment messages, and the
//! canonical bytes a device signs to prove possession of its key.

use vstd::prelude::*;
use vstd::utf8::{decode_utf8, encode_utf8, valid_utf8};

use crate::app_message::{
    encode_message, encode_new_message, fields_size, lemma_fits_fields_short, lemma_message_encode_decode,
    lemma_parse_message_canonical, map_codec_error, message_fits, parse_message, size_error,
    string_field, take_fields, ApplicationMessage, FAMILY_DEVICE_AUTH, FAMILY_DEVICE_ENROLLMENT,
    TYPE_DEVICE_AUTH_CHALLENGE, TYPE_DEVICE_AUTH_FINISH, TYPE_DEVICE_AUTH_RESULT,
    TYPE_DEVICE_AUTH_START, TYPE_DEVICE_ENROLL_CHALLENGE, TYPE_DEVICE_ENROLL_FINISH,
    TYPE_DEVICE_ENROLL_RESULT, TYPE_DEVICE_ENROLL_START,
};
use crate::codec::{
    ensure_empty, extend_bytes, len_prefixed, take_fixed, take_u64, u16_be, u16_to_be_bytes,
    u64_be, u64_from_be, u64_to_be_bytes,
};
use crate::constants::MAX_APPLICATION_PLAINTEXT_SIZE;
use crate::crypto::{ed25519_verifies_strict, ed25519_verify_strict};
use crate::error::{ApiError, ApiResult};
use crate::inner_context::{
    fits_u16, put_canonical_str, Hash32, InnerChannelContext, DEVICE_PROOF_DOMAIN_V1,
    INNER_PROTOCOL_VERSION_V1, PRODUCT_LABEL_V1,
};

verus! {

/// Known-device reauthentication purpose code.
pub const DEVICE_PROOF_PURPOSE_KNOWN_DEVICE_REAUTH: u8 = 1;
/// New-device enrollment purpose code.
pub const DEVICE_PROOF_PURPOSE_NEW_DEVICE_ENROLLMENT: u8 = 2;

/// Device state returned by authentication or enrollment.
#[derive(Debug, Clone, Copy, PartialEq, Eq)]
pub enum DeviceState {
    /// Device is active and can use the tunnel.
    Active,
    /// Device was accepted but still requires product-side approval.
    Pending,
}

/// Wire code of a device state.
pub open spec fn state_code(s: DeviceState) -> u8 {
    match s {
        DeviceState::Active => 1,
        DeviceState::Pending => 2,
    }
}

/// Device state named by a wire code, if any.
pub open spec fn state_from_code(code: u8) -> Option<DeviceState> {
    if code == 1 {
        Some(DeviceState::Active)
    } else if code == 2 {
        Some(DeviceState::Pending)
    } else {
        None
    }
}

impl DeviceState {
    pub(crate) fn to_wire(self) -> (code: u8)
        ensures
            code == state_code(self),
    {
        match self {
            DeviceState::Active => 1,
            DeviceState::Pending => 2,
        }
    }

    pub(crate) fn from_wire(value: u8) -> (r: ApiResult<Self>)
        ensures
            r is Ok <==> state_from_code(value) is Some,
            r matches Ok(s) ==> state_from_code(value) == Some(s),
            r is Err ==> r == Err::<Self, ApiError>(ApiError::PostHandshakeAuthFailure),
    {
        match value {
            1 => Ok(DeviceState::Active),
            2 => Ok(DeviceState::Pending),
            _ => Err(ApiError::PostHandshakeAuthFailure),
        }
    }
}

/// Device-proof purpose.
#[derive(Debug, Clone, Copy, PartialEq, Eq)]
pub enum DeviceProofPurpose {
    /// Reauthenticate an enrolled returning device.
    KnownDeviceReauth,
    /// Enroll a new candidate device.
    NewDeviceEnrollment,
}

/// Canonical v1 code of a purpose.
pub open spec fn purpose_code(p: DeviceProofPurpose) -> u8 {
    match p {
        DeviceProofPurpose::KnownDeviceReauth => DEVICE_PROOF_PURPOSE_KNOWN_DEVICE_REAUTH,
        DeviceProofPurpose::NewDeviceEnrollment => DEVICE_PROOF_PURPOSE_NEW_DEVICE_ENROLLMENT,
    }
}

impl DeviceProofPurpose {
    /// Returns the canonical v1 purpose code.
    pub fn code(self) -> (c: u8)
        ensures
            c == purpose_code(self),
    {
        match self {
            DeviceProofPurpose::KnownDeviceReauth => DEVICE_PROOF_PURPOSE_KNOWN_DEVICE_REAUTH,
            DeviceProofPurpose::NewDeviceEnrollment => DEVICE_PROOF_PURPOSE_NEW_DEVICE_ENROLLMENT,
        }
    }
}

/// Server-issued device challenge.
#[derive(Debug, Clone, PartialEq, Eq)]
pub struct DeviceChallenge {
    /// Server challenge bytes.
    pub server_challenge: Hash32,
    /// Challenge expiry in Unix milliseconds.
    pub expires_at_unix_ms: u64,
}

/// Message fields of a challenge.
pub open spec fn challenge_fields(server_challenge: Seq<u8>, expires_at_unix_ms: u64) -> Seq<
    Seq<u8>,
> {
    seq![server_challenge, u64_be(expires_at_unix_ms)]
}

/// The challenge (bytes and expiry) that wire bytes denote for one family and type.
pub open spec fn decode_challenge_spec(record: Seq<u8>, family: u8, message_type: u8) -> Option<
    (Seq<u8>, u64),
> {
    match parse_message(record) {
        Some((f, t, fs)) => if f == family && t == message_type && fs.len() == 2 && fs[0].len()
            == 32 && fs[1].len() == 8 {
            Some((fs[0], u64_from_be(fs[1])))
        } else {
            None
        },
        None => None,
    }
}

impl DeviceChallenge {
    /// Fails with `PostHandshakeAuthFailure` exactly when `now_unix_ms` is at
    /// or after the expiry.
    pub fn ensure_fresh(&self, now_unix_ms: u64) -> (r: ApiResult<()>)
        ensures
            r is Ok <==> now_unix_ms < self.expires_at_unix_ms,
            r is Err ==> r == Err::<(), ApiError>(ApiError::PostHandshakeAuthFailure),
    {
        if now_unix_ms >= self.expires_at_unix_ms {
            return Err(ApiError::PostHandshakeAuthFailure);
        }
        Ok(())
    }

    /// Encodes a known-device challenge.
    pub fn encode_auth(&self) -> (r: ApiResult<Vec<u8>>)
        ensures
            r matches Ok(out) && out@ == encode_message(
                FAMILY_DEVICE_AUTH,
                TYPE_DEVICE_AUTH_CHALLENGE,
                challenge_fields(self.server_challenge@, self.expires_at_unix_ms),
            ),
    {
        self.encode_for(FAMILY_DEVICE_AUTH, TYPE_DEVICE_AUTH_CHALLENGE)
    }

    /// Encodes an enrollment challenge.
    pub fn encode_enrollment(&self) -> (r: ApiResult<Vec<u8>>)
        ensures
            r matches Ok(out) && out@ == encode_message(
                FAMILY_DEVICE_ENROLLMENT,
                TYPE_DEVICE_ENROLL_CHALLENGE,
                challenge_fields(self.server_challenge@, self.expires_at_unix_ms),
            ),
    {
        self.encode_for(FAMILY_DEVICE_ENROLLMENT, TYPE_DEVICE_ENROLL_CHALLENGE)
    }

    /// Decodes a known-device challenge.
    ///
    /// Fails with `RecordTooLarge` for records over the plaintext limit and
    /// with `PostHandshakeAuthFailure` for any other malformed record.
    pub fn decode_auth(record: &[u8]) -> (r: ApiResult<Self>)
        ensures
            Self::decoded(record@, FAMILY_DEVICE_AUTH, TYPE_DEVICE_AUTH_CHALLENGE, r),
    {
        Self::decode_for(record, FAMILY_DEVICE_AUTH, TYPE_DEVICE_AUTH_CHALLENGE)
    }

    /// Decodes an enrollment challenge.
    ///
    /// Fails with `RecordTooLarge` for records over the plaintext limit and
    /// with `PostHandshakeAuthFailure` for any other malformed record.
    pub fn decode_enrollment(record: &[u8]) -> (r: ApiResult<Self>)
        ensures
            Self::decoded(record@, FAMILY_DEVICE_ENROLLMENT, TYPE_DEVICE_ENROLL_CHALLENGE, r),
    {
        Self::decode_for(record, FAMILY_DEVICE_ENROLLMENT, TYPE_DEVICE_ENROLL_CHALLENGE)
    }

    /// What decoding `record` as a challenge of one family and type returns.
    pub open spec fn decoded(record: Seq<u8>, family: u8, message_type: u8, r: ApiResult<Self>) -> bool {
        &&& record.len() > MAX_APPLICATION_PLAINTEXT_SIZE ==> r == Err::<Self, ApiError>(
            ApiError::RecordTooLarge {
                actual: record.len() as usize,
                max: MAX_APPLICATION_PLAINTEXT_SIZE,
            },
        )
        &&& record.len() <= MAX_APPLICATION_PLAINTEXT_SIZE ==> (r is Ok <==> decode_challenge_spec(
            record,
            family,
            message_type,
        ) is Some)
        &&& r matches Ok(c) ==> decode_challenge_spec(record, family, message_type) == Some(
            (c.server_challenge@, c.expires_at_unix_ms),
        )
        &&& record.len() <= MAX_APPLICATION_PLAINTEXT_SIZE && r is Err ==> r == Err::<
            Self,
            ApiError,
        >(ApiError::PostHandshakeAuthFailure)
    }

    fn encode_for(&self, family: u8, message_type: u8) -> (r: ApiResult<Vec<u8>>)
        ensures
            r matches Ok(out) && out@ == encode_message(
                family,
                message_type,
                challenge_fields(self.server_challenge@, self.expires_at_unix_ms),
            ),
    {
        let challenge = vstd::slice::slice_to_vec(self.server_challenge.as_slice());
        let expiry_bytes = u64_to_be_bytes(self.expires_at_unix_ms);
        let expiry = vstd::slice::slice_to_vec(expiry_bytes.as_slice());
        let mut fields: Vec<Vec<u8>> = Vec::new();
        fields.push(challenge);
        fields.push(expiry);
        let ghost fs = challenge_fields(self.server_challenge@, self.expires_at_unix_ms);
        assert(fields.deep_view()[0] =~= challenge@);
        assert(fields.deep_view()[1] =~= expiry@);
        assert(fields.deep_view() =~= fs);
        proof {
            assert(fs.drop_first().drop_first() =~= Seq::<Seq<u8>>::empty());
            assert(crate::app_message::fields_size(fs) == 44) by {
                assert(crate::app_message::fields_size(fs.drop_first().drop_first()) == 0);
                assert(fs.drop_first()[0] == fs[1]);
                assert(crate::app_message::fields_size(fs.drop_first()) == 10);
            }
        }
        encode_new_message(family, message_type, fields)
    }

    fn decode_for(record: &[u8], family: u8, message_type: u8) -> (r: ApiResult<Self>)
        ensures
            Self::decoded(record@, family, message_type, r),
    {
        let message = ApplicationMessage::decode(record)?;
        message.expect_kind(family, message_type)?;
        let fields = take_fields::<2>(message.fields)?;
        let ghost fs = fields.deep_view();
        assert(fs[0] =~= fields@[0]@);
        assert(fs[1] =~= fields@[1]@);
        let mut challenge_input = fields[0].as_slice();
        let server_challenge = match take_fixed::<32>(&mut challenge_input) {
            Ok(value) => value,
            Err(error) => {
                return Err(map_codec_error(error));
            },
        };
        match ensure_empty(challenge_input) {
            Ok(()) => {},
            Err(error) => {
                return Err(map_codec_error(error));
            },
        }
        assert(server_challenge@ =~= fs[0]);
        let mut expiry_input = fields[1].as_slice();
        let expires_at_unix_ms = match take_u64(&mut expiry_input) {
            Ok(value) => value,
            Err(error) => {
                return Err(map_codec_error(error));
            },
        };
        match ensure_empty(expiry_input) {
            Ok(()) => {},
            Err(error) => {
                return Err(map_codec_error(error));
            },
        }
        Ok(Self { server_challenge, expires_at_unix_ms })
    }
}

/// Law: a challenge's encoding decodes to that challenge, for either family.
pub proof fn lemma_challenge_round_trip(
    server_challenge: Seq<u8>,
    expires_at_unix_ms: u64,
    family: u8,
    message_type: u8,
)
    requires
        server_challenge.len() == 32,
    ensures
        decode_challenge_spec(
            encode_message(family, message_type, challenge_fields(server_challenge, expires_at_unix_ms)),
            family,
            message_type,
        ) == Some((server_challenge, expires_at_unix_ms)),
{
    let fs = challenge_fields(server_challenge, expires_at_unix_ms);
    assert(fs.drop_first().drop_first() =~= Seq::<Seq<u8>>::empty());
    assert(crate::app_message::fields_size(fs) == 44) by {
        assert(crate::app_message::fields_size(fs.drop_first().drop_first()) == 0);
                assert(fs.drop_first()[0] == fs[1]);
                assert(crate::app_message::fields_size(fs.drop_first()) == 10);
    }
    lemma_message_encode_decode(family, message_type, fs);
    crate::codec::lemma_u64_be_round_trip(expires_at_unix_ms);
}


/// Input used to construct canonical device-proof signing bytes.
#[derive(Debug, Clone, PartialEq, Eq)]
pub struct DeviceProofInput {
    /// Noise handshake hash.
    pub noise_handshake_hash: Hash32,
    /// Server challenge.
    pub server_challenge: Hash32,
    /// Stable service context.
    pub context: InnerChannelContext,
    /// Authenticated account context hash.
    pub account_context_hash: Hash32,
    /// Device key identifier.
    pub device_key_id: String,
    /// Proof purpose.
    pub purpose: DeviceProofPurpose,
    /// Proof expiry in Unix milliseconds.
    pub expires_at_unix_ms: u64,
}

/// Canonical v1 device-proof signing bytes over the proof's parts: domain,
/// product label, protocol version, handshake hash, challenge, the service
/// context, account context hash, device key identifier, purpose and expiry.
pub open spec fn device_proof_bytes(
    noise_handshake_hash: Seq<u8>,
    server_challenge: Seq<u8>,
    service_id: Seq<char>,
    environment_id: Seq<char>,
    service_authority: Seq<char>,
    signed_descriptor_hash: Seq<u8>,
    allowed_noise_suite: Seq<char>,
    account_context_hash: Seq<u8>,
    device_key_id: Seq<char>,
    purpose: DeviceProofPurpose,
    expires_at_unix_ms: u64,
) -> Seq<u8> {
    device_proof_head() + noise_handshake_hash + server_challenge + device_proof_tail(
        service_id,
        environment_id,
        service_authority,
        signed_descriptor_hash,
        allowed_noise_suite,
        account_context_hash,
        device_key_id,
        purpose,
        expires_at_unix_ms,
    )
}

/// What every device proof starts with: domain, product label and protocol
/// version.
pub open spec fn device_proof_head() -> Seq<u8> {
    DEVICE_PROOF_DOMAIN_V1@ + len_prefixed(encode_utf8(PRODUCT_LABEL_V1@)) + u16_be(
        INNER_PROTOCOL_VERSION_V1,
    )
}

/// What a device proof carries after the handshake hash and challenge: the
/// service context, account context hash, device key identifier, purpose
/// and expiry.
pub open spec fn device_proof_tail(
    service_id: Seq<char>,
    environment_id: Seq<char>,
    service_authority: Seq<char>,
    signed_descriptor_hash: Seq<u8>,
    allowed_noise_suite: Seq<char>,
    account_context_hash: Seq<u8>,
    device_key_id: Seq<char>,
    purpose: DeviceProofPurpose,
    expires_at_unix_ms: u64,
) -> Seq<u8> {
    len_prefixed(encode_utf8(service_id)) + len_prefixed(encode_utf8(environment_id))
        + len_prefixed(encode_utf8(service_authority)) + signed_descriptor_hash + len_prefixed(
        encode_utf8(allowed_noise_suite),
    ) + account_context_hash + len_prefixed(encode_utf8(device_key_id)) + seq![
        purpose_code(purpose),
    ] + u64_be(expires_at_unix_ms)
}

impl DeviceProofInput {
    /// Whether every length-prefixed string fits its prefix.
    pub open spec fn strings_fit(&self) -> bool {
        &&& fits_u16(self.context.service_id@)
        &&& fits_u16(self.context.environment_id@)
        &&& fits_u16(self.context.service_authority@)
        &&& fits_u16(self.context.allowed_noise_suite@)
        &&& fits_u16(self.device_key_id@)
    }

    /// Canonical v1 signing bytes of this input.
    pub open spec fn canonical_spec(&self) -> Seq<u8> {
        device_proof_bytes(
            self.noise_handshake_hash@,
            self.server_challenge@,
            self.context.service_id@,
            self.context.environment_id@,
            self.context.service_authority@,
            self.context.signed_descriptor_hash@,
            self.context.allowed_noise_suite@,
            self.account_context_hash@,
            self.device_key_id@,
            self.purpose,
            self.expires_at_unix_ms,
        )
    }

    /// Builds canonical v1 signing bytes.
    ///
    /// Fails with the canonical-length error exactly when a string field
    /// exceeds `u16::MAX` bytes.
    pub fn canonical_bytes(&self) -> (r: ApiResult<Vec<u8>>)
        ensures
            r is Ok <==> self.strings_fit(),
            r matches Ok(out) ==> out@ == self.canonical_spec(),
            r is Err ==> r == Err::<Vec<u8>, ApiError>(
                ApiError::InvalidServiceDescriptor("canonical string exceeds u16 length"),
            ),
    {
        proof {
            reveal_strlit("secure-tunnel");
            crate::text::lemma_encode_utf8_len(PRODUCT_LABEL_V1@);
        }
        let mut out: Vec<u8> = Vec::new();
        extend_bytes(&mut out, DEVICE_PROOF_DOMAIN_V1.as_slice());
        put_canonical_str(&mut out, PRODUCT_LABEL_V1)?;
        let version = u16_to_be_bytes(INNER_PROTOCOL_VERSION_V1);
        extend_bytes(&mut out, version.as_slice());
        extend_bytes(&mut out, self.noise_handshake_hash.as_slice());
        extend_bytes(&mut out, self.server_challenge.as_slice());
        put_canonical_str(&mut out, self.context.service_id.as_str())?;
        put_canonical_str(&mut out, self.context.environment_id.as_str())?;
        put_canonical_str(&mut out, self.context.service_authority.as_str())?;
        extend_bytes(&mut out, self.context.signed_descriptor_hash.as_slice());
        put_canonical_str(&mut out, self.context.allowed_noise_suite.as_str())?;
        extend_bytes(&mut out, self.account_context_hash.as_slice());
        put_canonical_str(&mut out, self.device_key_id.as_str())?;
        out.push(self.purpose.code());
        let expiry = u64_to_be_bytes(self.expires_at_unix_ms);
        extend_bytes(&mut out, expiry.as_slice());
        assert(out@ =~= self.canonical_spec());
        Ok(out)
    }
}

/// Law: device-proof signing bytes bind the Noise handshake hash and the
/// server challenge: two inputs whose signing bytes agree carry the same
/// handshake hash and the same challenge, so a proof made for one session
/// or challenge does not verify for another.
pub proof fn lemma_device_proof_binds_session(a: DeviceProofInput, b: DeviceProofInput)
    requires
        a.canonical_spec() == b.canonical_spec(),
    ensures
        a.noise_handshake_hash == b.noise_handshake_hash,
        a.server_challenge == b.server_challenge,
{
    let n = device_proof_head().len() as int;
    let ca = a.canonical_spec();
    let cb = b.canonical_spec();
    assert(ca.subrange(n, n + 32) =~= a.noise_handshake_hash@);
    assert(cb.subrange(n, n + 32) =~= b.noise_handshake_hash@);
    assert(ca.subrange(n + 32, n + 64) =~= a.server_challenge@);
    assert(cb.subrange(n + 32, n + 64) =~= b.server_challenge@);
    assert(a.noise_handshake_hash@ =~= b.noise_handshake_hash@);
    assert(a.server_challenge@ =~= b.server_challenge@);
}

/// Verifies an Ed25519 device proof.
///
/// Fails with `PostHandshakeAuthFailure` exactly when the key is malformed or
/// the signature does not strictly verify the canonical bytes.
pub fn verify_device_proof_signature(
    device_public_key: &[u8; 32],
    canonical_bytes: &[u8],
    signature: &[u8; 64],
) -> (r: ApiResult<()>)
    ensures
        r is Ok <==> ed25519_verifies_strict(device_public_key@, canonical_bytes@, signature@),
        r is Err ==> r == Err::<(), ApiError>(ApiError::PostHandshakeAuthFailure),
{
    if ed25519_verify_strict(device_public_key, canonical_bytes, signature) {
        Ok(())
    } else {
        Err(ApiError::PostHandshakeAuthFailure)
    }
}

/// Known-device auth start message.
#[derive(Debug, Clone, PartialEq, Eq)]
pub struct DeviceAuthStart {
    /// Device key identifier.
    pub device_key_id: String,
}

/// The device key identifier that an auth-start record denotes, if any.
pub open spec fn decode_auth_start_spec(record: Seq<u8>) -> Option<Seq<char>> {
    match parse_message(record) {
        Some((f, t, fs)) => if f == FAMILY_DEVICE_AUTH && t == TYPE_DEVICE_AUTH_START && fs.len()
            == 1 && valid_utf8(fs[0]) {
            Some(decode_utf8(fs[0]))
        } else {
            None
        },
        None => None,
    }
}

/// What decoding a record returns, given the spec decoder's answer.
pub open spec fn decoded_as<T, V>(record: Seq<u8>, spec: Option<V>, r: ApiResult<T>, view: spec_fn(T) -> V) -> bool {
    &&& record.len() > MAX_APPLICATION_PLAINTEXT_SIZE ==> r == Err::<T, ApiError>(
        ApiError::RecordTooLarge { actual: record.len() as usize, max: MAX_APPLICATION_PLAINTEXT_SIZE },
    )
    &&& record.len() <= MAX_APPLICATION_PLAINTEXT_SIZE ==> (r is Ok <==> spec is Some)
    &&& r matches Ok(v) ==> spec == Some(view(v))
    &&& record.len() <= MAX_APPLICATION_PLAINTEXT_SIZE && r is Err ==> r == Err::<T, ApiError>(
        ApiError::PostHandshakeAuthFailure,
    )
}

impl DeviceAuthStart {
    /// Encodes this message.
    ///
    /// Fails with `RecordTooLarge` exactly when the identifier exceeds v1 limits.
    pub fn encode(&self) -> (r: ApiResult<Vec<u8>>)
        ensures
            r is Ok <==> message_fits(seq![encode_utf8(self.device_key_id@)]),
            r matches Ok(out) ==> out@ == encode_message(
                FAMILY_DEVICE_AUTH,
                TYPE_DEVICE_AUTH_START,
                seq![encode_utf8(self.device_key_id@)],
            ),
            r is Err ==> r == Err::<Vec<u8>, ApiError>(
                size_error(seq![encode_utf8(self.device_key_id@)]),
            ),
    {
        let id = vstd::slice::slice_to_vec(self.device_key_id.as_str().as_bytes());
        let mut fields: Vec<Vec<u8>> = Vec::new();
        fields.push(id);
        assert(fields.deep_view()[0] =~= id@);
        assert(fields.deep_view() =~= seq![encode_utf8(self.device_key_id@)]);
        encode_new_message(FAMILY_DEVICE_AUTH, TYPE_DEVICE_AUTH_START, fields)
    }

    /// Decodes this message.
    ///
    /// Fails with `RecordTooLarge` for records over the plaintext limit and
    /// with `PostHandshakeAuthFailure` for any other malformed record.
    pub fn decode(record: &[u8]) -> (r: ApiResult<Self>)
        ensures
            decoded_as(
                record@,
                decode_auth_start_spec(record@),
                r,
                |v: Self| v.device_key_id@,
            ),
    {
        let message = ApplicationMessage::decode(record)?;
        message.expect_kind(FAMILY_DEVICE_AUTH, TYPE_DEVICE_AUTH_START)?;
        let fields = take_fields::<1>(message.fields)?;
        let ghost fs = fields.deep_view();
        assert(fs[0] =~= fields@[0]@);
        proof {
            lemma_parse_message_canonical(record@);
            lemma_fits_fields_short(fs);
        }
        let device_key_id = string_field(fields[0].as_slice())?;
        Ok(Self { device_key_id })
    }
}

/// New-device enrollment start message.
#[derive(Debug, Clone, PartialEq, Eq)]
pub struct DeviceEnrollmentStart {
    /// Candidate device key identifier.
    pub device_key_id: String,
    /// Candidate device Ed25519 public key.
    pub device_public_key: Hash32,
}

impl DeviceEnrollmentStart {
    /// Message fields of this message.
    pub open spec fn fields_spec(&self) -> Seq<Seq<u8>> {
        seq![encode_utf8(self.device_key_id@), self.device_public_key@]
    }

    /// Encodes this message.
    ///
    /// Fails with `RecordTooLarge` exactly when the fields exceed v1 limits.
    pub fn encode(&self) -> (r: ApiResult<Vec<u8>>)
        ensures
            r is Ok <==> message_fits(self.fields_spec()),
            r matches Ok(out) ==> out@ == encode_message(
                FAMILY_DEVICE_ENROLLMENT,
                TYPE_DEVICE_ENROLL_START,
                self.fields_spec(),
            ),
            r is Err ==> r == Err::<Vec<u8>, ApiError>(size_error(self.fields_spec())),
    {
        let id = vstd::slice::slice_to_vec(self.device_key_id.as_str().as_bytes());
        let key = vstd::slice::slice_to_vec(self.device_public_key.as_slice());
        let mut fields: Vec<Vec<u8>> = Vec::new();
        fields.push(id);
        fields.push(key);
        assert(fields.deep_view()[0] =~= id@);
        assert(fields.deep_view()[1] =~= key@);
        assert(fields.deep_view() =~= self.fields_spec());
        encode_new_message(FAMILY_DEVICE_ENROLLMENT, TYPE_DEVICE_ENROLL_START, fields)
    }
}

/// Device proof finish message.
#[derive(Debug, Clone, PartialEq, Eq)]
pub struct DeviceProofFinish {
    /// Device key identifier.
    pub device_key_id: String,
    /// Server challenge bytes.
    pub server_challenge: Hash32,
    /// Proof expiry in Unix milliseconds.
    pub expires_at_unix_ms: u64,
    /// Caller-provided Ed25519 signature.
    pub signature: [u8; 64],
    /// Candidate device public key for enrollment, when applicable.
    pub candidate_device_public_key: Option<Hash32>,
}

/// Thirty-two zero bytes.
pub open spec fn zero_key() -> Seq<u8> {
    Seq::new(32, |i: int| 0u8)
}

impl DeviceProofFinish {
    /// Message fields of this message, with the candidate key (zeros when
    /// absent) appended for enrollment.
    pub open spec fn fields_spec(&self, include_public_key: bool) -> Seq<Seq<u8>> {
        let base = seq![
            encode_utf8(self.device_key_id@),
            self.server_challenge@,
            u64_be(self.expires_at_unix_ms),
            self.signature@,
        ];
        if include_public_key {
            base.push(
                match self.candidate_device_public_key {
                    Some(key) => key@,
                    None => zero_key(),
                },
            )
        } else {
            base
        }
    }

    /// Encodes a known-device proof finish message.
    ///
    /// Fails with `RecordTooLarge` exactly when the fields exceed v1 limits.
    pub fn encode_auth(&self) -> (r: ApiResult<Vec<u8>>)
        ensures
            r is Ok <==> message_fits(self.fields_spec(false)),
            r matches Ok(out) ==> out@ == encode_message(
                FAMILY_DEVICE_AUTH,
                TYPE_DEVICE_AUTH_FINISH,
                self.fields_spec(false),
            ),
            r is Err ==> r == Err::<Vec<u8>, ApiError>(size_error(self.fields_spec(false))),
    {
        encode_new_message(FAMILY_DEVICE_AUTH, TYPE_DEVICE_AUTH_FINISH, proof_finish_fields(self, false))
    }

    /// Encodes an enrollment proof finish message.
    ///
    /// Fails with `RecordTooLarge` exactly when the fields exceed v1 limits.
    pub fn encode_enrollment(&self) -> (r: ApiResult<Vec<u8>>)
        ensures
            r is Ok <==> message_fits(self.fields_spec(true)),
            r matches Ok(out) ==> out@ == encode_message(
                FAMILY_DEVICE_ENROLLMENT,
                TYPE_DEVICE_ENROLL_FINISH,
                self.fields_spec(true),
            ),
            r is Err ==> r == Err::<Vec<u8>, ApiError>(size_error(self.fields_spec(true))),
    {
        encode_new_message(
            FAMILY_DEVICE_ENROLLMENT,
            TYPE_DEVICE_ENROLL_FINISH,
            proof_finish_fields(self, true),
        )
    }
}

fn proof_finish_fields(finish: &DeviceProofFinish, include_public_key: bool) -> (fields: Vec<Vec<u8>>)
    ensures
        fields.deep_view() == finish.fields_spec(include_public_key),
{
    let id = vstd::slice::slice_to_vec(finish.device_key_id.as_str().as_bytes());
    let challenge = vstd::slice::slice_to_vec(finish.server_challenge.as_slice());
    let expiry_bytes = u64_to_be_bytes(finish.expires_at_unix_ms);
    let expiry = vstd::slice::slice_to_vec(expiry_bytes.as_slice());
    let signature = vstd::slice::slice_to_vec(finish.signature.as_slice());
    let mut fields: Vec<Vec<u8>> = Vec::new();
    fields.push(id);
    fields.push(challenge);
    fields.push(expiry);
    fields.push(signature);
    assert(fields.deep_view()[0] =~= id@);
    assert(fields.deep_view()[1] =~= challenge@);
    assert(fields.deep_view()[2] =~= expiry@);
    assert(fields.deep_view()[3] =~= signature@);
    if include_public_key {
        let key = match finish.candidate_device_public_key {
            Some(key) => key,
            None => [0u8; 32],
        };
        let key_bytes = vstd::slice::slice_to_vec(key.as_slice());
        let ghost before = fields.deep_view();
        let ghost old_fields = fields@;
        fields.push(key_bytes);
        assert(key@ =~= match finish.candidate_device_public_key {
            Some(k) => k@,
            None => zero_key(),
        });
        assert forall|k: int| 0 <= k < 4 implies #[trigger] fields.deep_view()[k] == before[k] by {
            assert(fields@[k] == old_fields[k]);
        }
        assert(fields.deep_view()[4] =~= key_bytes@);
    }
    assert(fields.deep_view() =~= finish.fields_spec(include_public_key));
    fields
}

/// Device auth or enrollment result message.
#[derive(Debug, Clone, PartialEq, Eq)]
pub struct DeviceResult {
    /// Device key identifier accepted by the service.
    pub device_key_id: String,
    /// Device state.
    pub state: DeviceState,
}

/// Message fields of a device result.
pub open spec fn device_result_fields(device_key_id: Seq<char>, state: DeviceState) -> Seq<Seq<u8>> {
    seq![encode_utf8(device_key_id), seq![state_code(state)]]
}

/// The device result that a record denotes for one family and type, if any.
pub open spec fn decode_device_result_spec(record: Seq<u8>, family: u8, message_type: u8) -> Option<
    (Seq<char>, DeviceState),
> {
    match parse_message(record) {
        Some((f, t, fs)) => if f == family && t == message_type && fs.len() == 2 && fs[1].len() == 1
            && state_from_code(fs[1][0]) is Some && valid_utf8(fs[0]) {
            Some((decode_utf8(fs[0]), state_from_code(fs[1][0])->0))
        } else {
            None
        },
        None => None,
    }
}

impl DeviceResult {
    /// Encodes a known-device auth result.
    pub fn encode_auth(&self) -> (r: ApiResult<Vec<u8>>)
        ensures
            self.encoded(FAMILY_DEVICE_AUTH, TYPE_DEVICE_AUTH_RESULT, r),
    {
        self.encode_for(FAMILY_DEVICE_AUTH, TYPE_DEVICE_AUTH_RESULT)
    }

    /// Encodes an enrollment result.
    pub fn encode_enrollment(&self) -> (r: ApiResult<Vec<u8>>)
        ensures
            self.encoded(FAMILY_DEVICE_ENROLLMENT, TYPE_DEVICE_ENROLL_RESULT, r),
    {
        self.encode_for(FAMILY_DEVICE_ENROLLMENT, TYPE_DEVICE_ENROLL_RESULT)
    }

    /// Decodes a known-device auth result.
    pub fn decode_auth(record: &[u8]) -> (r: ApiResult<Self>)
        ensures
            Self::decoded(record@, FAMILY_DEVICE_AUTH, TYPE_DEVICE_AUTH_RESULT, r),
    {
        Self::decode_for(record, FAMILY_DEVICE_AUTH, TYPE_DEVICE_AUTH_RESULT)
    }

    /// Decodes an enrollment result.
    pub fn decode_enrollment(record: &[u8]) -> (r: ApiResult<Self>)
        ensures
            Self::decoded(record@, FAMILY_DEVICE_ENROLLMENT, TYPE_DEVICE_ENROLL_RESULT, r),
    {
        Self::decode_for(record, FAMILY_DEVICE_ENROLLMENT, TYPE_DEVICE_ENROLL_RESULT)
    }

    /// What encoding this result for one family and type returns: the
    /// message bytes, or `RecordTooLarge` exactly when the fields do not fit.
    pub open spec fn encoded(&self, family: u8, message_type: u8, r: ApiResult<Vec<u8>>) -> bool {
        let fs = device_result_fields(self.device_key_id@, self.state);
        &&& r is Ok <==> message_fits(fs)
        &&& r matches Ok(out) ==> out@ == encode_message(family, message_type, fs)
        &&& r is Err ==> r == Err::<Vec<u8>, ApiError>(size_error(fs))
    }

    /// What decoding `record` as a result of one family and type returns.
    pub open spec fn decoded(record: Seq<u8>, family: u8, message_type: u8, r: ApiResult<Self>) -> bool {
        decoded_as(
            record,
            decode_device_result_spec(record, family, message_type),
            r,
            |v: Self| (v.device_key_id@, v.state),
        )
    }

    fn encode_for(&self, family: u8, message_type: u8) -> (r: ApiResult<Vec<u8>>)
        ensures
            self.encoded(family, message_type, r),
    {
        let id = vstd::slice::slice_to_vec(self.device_key_id.as_str().as_bytes());
        let mut state: Vec<u8> = Vec::new();
        state.push(self.state.to_wire());
        let mut fields: Vec<Vec<u8>> = Vec::new();
        fields.push(id);
        fields.push(state);
        assert(fields.deep_view()[0] =~= id@);
        assert(fields.deep_view()[1] =~= state@);
        assert(fields.deep_view() =~= device_result_fields(self.device_key_id@, self.state));
        encode_new_message(family, message_type, fields)
    }

    fn decode_for(record: &[u8], family: u8, message_type: u8) -> (r: ApiResult<Self>)
        ensures
            Self::decoded(record@, family, message_type, r),
    {
        let message = ApplicationMessage::decode(record)?;
        message.expect_kind(family, message_type)?;
        let fields = take_fields::<2>(message.fields)?;
        let ghost fs = fields.deep_view();
        assert(fs[0] =~= fields@[0]@);
        assert(fs[1] =~= fields@[1]@);
        if fields[1].len() != 1 {
            return Err(ApiError::PostHandshakeAuthFailure);
        }
        proof {
            lemma_parse_message_canonical(record@);
            lemma_fits_fields_short(fs);
        }
        let device_key_id = string_field(fields[0].as_slice())?;
        let state = DeviceState::from_wire(fields[1][0])?;
        Ok(Self { device_key_id, state })
    }
}

/// Law: a device result's encoding decodes to that result, for either family.
pub proof fn lemma_device_result_round_trip(
    device_key_id: Seq<char>,
    state: DeviceState,
    family: u8,
    message_type: u8,
)
    requires
        message_fits(device_result_fields(device_key_id, state)),
    ensures
        decode_device_result_spec(
            encode_message(family, message_type, device_result_fields(device_key_id, state)),
            family,
            message_type,
        ) == Some((device_key_id, state)),
{
    let fs = device_result_fields(device_key_id, state);
    lemma_message_encode_decode(family, message_type, fs);
    vstd::utf8::encode_utf8_valid_utf8(device_key_id);
    vstd::utf8::encode_utf8_decode_utf8(device_key_id);
    assert(fs[1][0] == state_code(state));
}

/// Law: an auth-start message's encoding decodes to the same device key identifier.
pub proof fn lemma_auth_start_round_trip(device_key_id: Seq<char>)
    requires
        message_fits(seq![encode_utf8(device_key_id)]),
    ensures
        decode_auth_start_spec(
            encode_message(FAMILY_DEVICE_AUTH, TYPE_DEVICE_AUTH_START, seq![encode_utf8(device_key_id)]),
        ) == Some(device_key_id),
{
    lemma_message_encode_decode(FAMILY_DEVICE_AUTH, TYPE_DEVICE_AUTH_START, seq![encode_utf8(device_key_id)]);
    vstd::utf8::encode_utf8_valid_utf8(device_key_id);
    vstd::utf8::encode_utf8_decode_utf8(device_key_id);
}

/// An enrollment proof finish whose key identifier takes at most 65000
/// bytes always fits the v1 envelope, and decoding its encoding gives back
/// the enrollment family, the finish type and its five fields.
pub proof fn lemma_enrollment_finish_round_trip(f: DeviceProofFinish)
    requires
        encode_utf8(f.device_key_id@).len() <= 65000,
    ensures
        message_fits(f.fields_spec(true)),
        parse_message(
            encode_message(FAMILY_DEVICE_ENROLLMENT, TYPE_DEVICE_ENROLL_FINISH, f.fields_spec(true)),
        ) == Some((FAMILY_DEVICE_ENROLLMENT, TYPE_DEVICE_ENROLL_FINISH, f.fields_spec(true))),
{
    let fs = f.fields_spec(true);
    let key = match f.candidate_device_public_key {
        Some(k) => k@,
        None => zero_key(),
    };
    assert(key.len() == 32);
    assert(fs.len() == 5);
    let id = encode_utf8(f.device_key_id@);
    let t1 = fs.drop_first();
    let t2 = t1.drop_first();
    let t3 = t2.drop_first();
    let t4 = t3.drop_first();
    let t5 = t4.drop_first();
    assert(t5 =~= Seq::<Seq<u8>>::empty());
    assert(fields_size(t5) == 0);
    assert(t4[0] == key);
    assert(fields_size(t4) == 34);
    assert(t3[0] == f.signature@);
    assert(fields_size(t3) == 100);
    assert(t2[0] == u64_be(f.expires_at_unix_ms));
    assert(fields_size(t2) == 110);
    assert(t1[0] == f.server_challenge@);
    assert(fields_size(t1) == 144);
    assert(fs[0] == id);
    assert(fields_size(fs) == 146 + id.len());
    lemma_message_encode_decode(FAMILY_DEVICE_ENROLLMENT, TYPE_DEVICE_ENROLL_FINISH, fs);
}

} // verus!

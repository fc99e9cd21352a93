//! The loopback service the smoke harness talks to: a `snow` `NK1`
//! responder that answers account authentication, known-device
//! authentication and a ping after `Secure Ready`.

use vstd::prelude::*;

use crate::account_session::{
    AccountAuthRequest, AccountAuthResult, AccountFreshness, decode_request_spec, result_fields,
    AccountAuthResultView,
};
use crate::app_message::{
    ApplicationMessage, FAMILY_ACCOUNT, FAMILY_DEVICE_AUTH, TYPE_ACCOUNT_AUTH_RESULT,
    TYPE_DEVICE_AUTH_CHALLENGE, TYPE_DEVICE_AUTH_FINISH, TYPE_DEVICE_AUTH_RESULT,
    encode_message, lemma_fits_fields_short, lemma_parse_message_canonical, message_fits,
    parse_message, size_error, string_field, take_fields,
};
use crate::codec::{bytes_equal, len_prefixed, put_len_prefixed_bytes, take_fixed, take_u64, u64_from_be};
use crate::constants::{MAX_APPLICATION_PLAINTEXT_SIZE, MAX_RECORD_PAYLOAD_SIZE, NOISE_SUITE_V1};
use crate::noise_backend::{
    NoiseHandshake, NoiseSetup, builder_build_responder, builder_local_private_key, builder_new,
    builder_prologue,
    handshake_hash, handshake_into_transport_mode, handshake_read_message,
    handshake_write_message, parse_noise_params, transport_read_message, transport_write_message,
};
use crate::crypto::ed25519_verifies_strict;
use crate::descriptor::ServiceDescriptor;
use crate::device_session::{
    DeviceAuthStart, DeviceChallenge, DeviceProofFinish, DeviceProofInput, DeviceProofPurpose,
    DeviceResult, DeviceState, challenge_fields, decode_auth_start_spec, decoded_as,
    device_proof_bytes, device_result_fields, verify_device_proof_signature,
};
use crate::error::{ApiError, ApiResult};
use crate::noise::CLOSE_MESSAGE_TYPE_V1;
use crate::inner_context::{Hash32, base64_32, fits_u16};
use vstd::utf8::{decode_utf8, valid_utf8};

verus! {

/// The record a smoke client sends to check the secure channel.
pub const SMOKE_PING: [u8; 10] = [115, 109, 111, 107, 101, 45, 112, 105, 110, 103];

/// The service's answer to `SMOKE_PING`.
pub const SMOKE_PONG: [u8; 10] = [115, 109, 111, 107, 101, 45, 112, 111, 110, 103];

/// The account context hash the smoke service binds into device proofs.
pub const ACCOUNT_CONTEXT_HASH: Hash32 = [4, 4, 4, 4, 4, 4, 4, 4, 4, 4, 4, 4, 4, 4, 4, 4, 4, 4, 4, 4, 4, 4, 4, 4, 4, 4, 4, 4, 4, 4, 4, 4];

/// The known-device challenge the smoke service issues.
pub const DEVICE_CHALLENGE: Hash32 = [5, 5, 5, 5, 5, 5, 5, 5, 5, 5, 5, 5, 5, 5, 5, 5, 5, 5, 5, 5, 5, 5, 5, 5, 5, 5, 5, 5, 5, 5, 5, 5];

/// Expiry of `DEVICE_CHALLENGE`, in Unix milliseconds.
pub const CHALLENGE_EXPIRES_AT_UNIX_MS: u64 = 1_760_000_010_000;

/// Whether a plaintext record is a close message: four bytes of the close type.
pub open spec fn is_close_spec(record: Seq<u8>) -> bool {
    record.len() == 4 && record[0] == CLOSE_MESSAGE_TYPE_V1
}

/// Whether a plaintext record is a close message.
pub fn is_close_message(record: &[u8]) -> (b: bool)
    ensures
        b == is_close_spec(record@),
{
    record.len() == 4 && record[0] == CLOSE_MESSAGE_TYPE_V1
}

/// A known-device proof finish as the service reads it: key identifier,
/// challenge, expiry and signature.
pub struct FinishView {
    pub device_key_id: Seq<char>,
    pub server_challenge: Seq<u8>,
    pub expires_at_unix_ms: u64,
    pub signature: Seq<u8>,
}

/// The known-device proof finish that a record denotes, if any.
pub open spec fn decode_finish_spec(record: Seq<u8>) -> Option<FinishView> {
    match parse_message(record) {
        Some((f, t, fs)) => if f == FAMILY_DEVICE_AUTH && t == TYPE_DEVICE_AUTH_FINISH && fs.len()
            == 4 && valid_utf8(fs[0]) && fs[1].len() == 32 && fs[2].len() == 8 && fs[3].len()
            == 64 {
            Some(
                FinishView {
                    device_key_id: decode_utf8(fs[0]),
                    server_challenge: fs[1],
                    expires_at_unix_ms: u64_from_be(fs[2]),
                    signature: fs[3],
                },
            )
        } else {
            None
        },
        None => None,
    }
}

/// The parts of a decoded finish that the service reads.
pub open spec fn finish_view(f: DeviceProofFinish) -> FinishView {
    FinishView {
        device_key_id: f.device_key_id@,
        server_challenge: f.server_challenge@,
        expires_at_unix_ms: f.expires_at_unix_ms,
        signature: f.signature@,
    }
}

/// Reads exactly `N` bytes.
fn fixed_bytes<const N: usize>(bytes: &[u8]) -> (r: ApiResult<[u8; N]>)
    ensures
        r is Ok <==> bytes@.len() == N,
        r matches Ok(v) ==> v@ == bytes@,
        r is Err ==> r == Err::<[u8; N], ApiError>(ApiError::PostHandshakeAuthFailure),
{
    if bytes.len() != N {
        return Err(ApiError::PostHandshakeAuthFailure);
    }
    let mut input = bytes;
    match take_fixed::<N>(&mut input) {
        Ok(value) => {
            assert(bytes@.take(N as int) =~= bytes@);
            Ok(value)
        },
        Err(_) => Err(ApiError::PostHandshakeAuthFailure),
    }
}

/// Decodes a known-device proof finish record.
///
/// Fails with `RecordTooLarge` for records over the plaintext limit and with
/// `PostHandshakeAuthFailure` for any other malformed record.
pub fn decode_device_auth_finish(record: &[u8]) -> (r: ApiResult<DeviceProofFinish>)
    ensures
        decoded_as(record@, decode_finish_spec(record@), r, |f: DeviceProofFinish| finish_view(f)),
        r matches Ok(f) ==> f.candidate_device_public_key is None,
{
    let message = ApplicationMessage::decode(record)?;
    message.expect_kind(FAMILY_DEVICE_AUTH, TYPE_DEVICE_AUTH_FINISH)?;
    let fields = take_fields::<4>(message.fields)?;
    let ghost fs = fields.deep_view();
    assert(fs[0] =~= fields@[0]@);
    assert(fs[1] =~= fields@[1]@);
    assert(fs[2] =~= fields@[2]@);
    assert(fs[3] =~= fields@[3]@);
    proof {
        lemma_parse_message_canonical(record@);
        lemma_fits_fields_short(fs);
    }
    let device_key_id = string_field(fields[0].as_slice())?;
    let server_challenge = fixed_bytes::<32>(fields[1].as_slice())?;
    let expiry = fixed_bytes::<8>(fields[2].as_slice())?;
    let signature = fixed_bytes::<64>(fields[3].as_slice())?;
    let mut expiry_input = expiry.as_slice();
    let expires_at_unix_ms = match take_u64(&mut expiry_input) {
        Ok(value) => value,
        Err(_) => return Err(ApiError::PostHandshakeAuthFailure),
    };
    Ok(
        DeviceProofFinish {
            device_key_id,
            server_challenge,
            expires_at_unix_ms,
            signature,
            candidate_device_public_key: None,
        },
    )
}


/// What the service remembers between records: the handshake hash, the
/// account context it handed out, and the key identifier of a device
/// authentication that was started and not yet finished.
pub struct ResponderAuth {
    pub handshake_hash: Option<Seq<u8>>,
    pub account_context_hash: Option<Seq<u8>>,
    pub pending_device_key_id: Option<Seq<char>>,
}

/// A reply message: its bytes, or the size error when its fields do not fit.
pub open spec fn reply(family: u8, message_type: u8, fields: Seq<Seq<u8>>) -> Result<
    Seq<u8>,
    ApiError,
> {
    if message_fits(fields) {
        Ok(encode_message(family, message_type, fields))
    } else {
        Err(size_error(fields))
    }
}

/// The account result the service answers an account request with.
pub open spec fn account_reply(account_id: Seq<char>) -> Result<Seq<u8>, ApiError> {
    reply(
        FAMILY_ACCOUNT,
        TYPE_ACCOUNT_AUTH_RESULT,
        result_fields(
            AccountAuthResultView {
                account_id,
                session_context_id: "session-smoke"@,
                account_context_hash: ACCOUNT_CONTEXT_HASH@,
                freshness: AccountFreshness::Fresh,
            },
        ),
    )
}

/// The challenge the service answers a device start with.
pub open spec fn challenge_reply() -> Seq<u8> {
    encode_message(
        FAMILY_DEVICE_AUTH,
        TYPE_DEVICE_AUTH_CHALLENGE,
        challenge_fields(DEVICE_CHALLENGE@, CHALLENGE_EXPIRES_AT_UNIX_MS),
    )
}

/// The bytes a known-device proof signs for this service and session.
pub open spec fn reauth_proof_bytes(
    d: ServiceDescriptor,
    handshake_hash: Seq<u8>,
    account_context_hash: Seq<u8>,
    f: FinishView,
) -> Seq<u8> {
    device_proof_bytes(
        handshake_hash,
        f.server_challenge,
        d.service_id@,
        d.environment_id@,
        d.service_authority@,
        base64_32(d.signed_descriptor_hash@)->0,
        NOISE_SUITE_V1@,
        account_context_hash,
        f.device_key_id,
        DeviceProofPurpose::KnownDeviceReauth,
        f.expires_at_unix_ms,
    )
}

/// Whether the strings of a known-device proof fit their length prefixes.
pub open spec fn reauth_strings_fit(d: ServiceDescriptor, f: FinishView) -> bool {
    &&& fits_u16(d.service_id@)
    &&& fits_u16(d.environment_id@)
    &&& fits_u16(d.service_authority@)
    &&& fits_u16(NOISE_SUITE_V1@)
    &&& fits_u16(f.device_key_id)
}

/// What the service answers a device finish with: the device result when
/// the finish matches the started authentication and the service's
/// challenge, the session has a handshake hash and an account context, and
/// the signature verifies over the proof bytes; the first failing check's
/// error otherwise.
pub open spec fn finish_reply(
    a: ResponderAuth,
    d: ServiceDescriptor,
    device_key: Seq<u8>,
    f: FinishView,
) -> Result<Seq<u8>, ApiError> {
    match a.pending_device_key_id {
        None => Err(ApiError::PostHandshakeAuthFailure),
        Some(expected) => if expected != f.device_key_id || f.server_challenge
            != DEVICE_CHALLENGE@ {
            Err(ApiError::PostHandshakeAuthFailure)
        } else {
            match a.handshake_hash {
                None => Err(ApiError::PostHandshakeAuthFailure),
                Some(hs) => if d.context_error() is Some {
                    Err(d.context_error()->0)
                } else {
                    match a.account_context_hash {
                        None => Err(ApiError::PostHandshakeAuthFailure),
                        Some(account) => if !reauth_strings_fit(d, f) {
                            Err(
                                ApiError::InvalidServiceDescriptor(
                                    "canonical string exceeds u16 length",
                                ),
                            )
                        } else if !ed25519_verifies_strict(
                            device_key,
                            reauth_proof_bytes(d, hs, account, f),
                            f.signature,
                        ) {
                            Err(ApiError::PostHandshakeAuthFailure)
                        } else {
                            reply(
                                FAMILY_DEVICE_AUTH,
                                TYPE_DEVICE_AUTH_RESULT,
                                device_result_fields(f.device_key_id, DeviceState::Active),
                            )
                        },
                    }
                },
            }
        },
    }
}

/// A reply as an answer that carries a record.
pub open spec fn some_reply(r: Result<Seq<u8>, ApiError>) -> Result<Option<Seq<u8>>, ApiError> {
    match r {
        Ok(bytes) => Ok(Some(bytes)),
        Err(e) => Err(e),
    }
}

/// The account request a record denotes, if it is one.
pub open spec fn account_request_of(record: Seq<u8>) -> Option<crate::account_session::AccountAuthRequestView> {
    if record.len() <= MAX_APPLICATION_PLAINTEXT_SIZE {
        decode_request_spec(record)
    } else {
        None
    }
}

/// The device key identifier of a device start a record denotes, if it is one.
pub open spec fn device_start_of(record: Seq<u8>) -> Option<Seq<char>> {
    if record.len() <= MAX_APPLICATION_PLAINTEXT_SIZE {
        decode_auth_start_spec(record)
    } else {
        None
    }
}

/// The device finish a record denotes, if it is one.
pub open spec fn device_finish_of(record: Seq<u8>) -> Option<FinishView> {
    if record.len() <= MAX_APPLICATION_PLAINTEXT_SIZE {
        decode_finish_spec(record)
    } else {
        None
    }
}

/// How the service handles one plaintext record: what it remembers after
/// and what it answers. A close message is answered with nothing; an
/// account request, a device start, a device finish and the ping each get
/// their reply; anything else is an authentication failure.
pub open spec fn plaintext_step(
    a: ResponderAuth,
    d: ServiceDescriptor,
    device_key: Seq<u8>,
    record: Seq<u8>,
) -> (ResponderAuth, Result<Option<Seq<u8>>, ApiError>) {
    if is_close_spec(record) {
        (a, Ok(None))
    } else if account_request_of(record) is Some {
        (
            ResponderAuth {
                handshake_hash: a.handshake_hash,
                account_context_hash: Some(ACCOUNT_CONTEXT_HASH@),
                pending_device_key_id: a.pending_device_key_id,
            },
            some_reply(account_reply(account_request_of(record)->0.account_id)),
        )
    } else if device_start_of(record) is Some {
        (
            ResponderAuth {
                handshake_hash: a.handshake_hash,
                account_context_hash: a.account_context_hash,
                pending_device_key_id: device_start_of(record),
            },
            Ok(Some(challenge_reply())),
        )
    } else if device_finish_of(record) is Some {
        (
            ResponderAuth {
                handshake_hash: a.handshake_hash,
                account_context_hash: a.account_context_hash,
                pending_device_key_id: None,
            },
            some_reply(finish_reply(a, d, device_key, device_finish_of(record)->0)),
        )
    } else if record == SMOKE_PING@ {
        (a, Ok(Some(SMOKE_PONG@)))
    } else {
        (a, Err(ApiError::PostHandshakeAuthFailure))
    }
}

/// An answer's bytes.
pub open spec fn answer_view(r: ApiResult<Option<Vec<u8>>>) -> Result<Option<Seq<u8>>, ApiError> {
    match r {
        Ok(Some(v)) => Ok(Some(v@)),
        Ok(None) => Ok(None),
        Err(e) => Err(e),
    }
}

/// A service-side `NK1` responder for one session: the descriptor it
/// serves, the device key it accepts proofs from, the `snow` handshake or
/// transport state, and what it remembers between records.
pub struct NoiseServiceResponder {
    descriptor: ServiceDescriptor,
    device_public_key: [u8; 32],
    handshake: Option<NoiseHandshake>,
    handshake_hash: Option<Hash32>,
    transport: Option<snow::TransportState>,
    account_context_hash: Option<Hash32>,
    pending_device_key_id: Option<String>,
}

impl NoiseServiceResponder {
    /// Well-formedness: a responder never holds a handshake and a
    /// transport-mode session at once.
    pub closed spec fn wf(&self) -> bool {
        !(self.handshake is Some && self.transport is Some)
    }

    /// What the responder remembers between records.
    pub closed spec fn auth(&self) -> ResponderAuth {
        ResponderAuth {
            handshake_hash: match self.handshake_hash {
                Some(h) => Some(h@),
                None => None,
            },
            account_context_hash: match self.account_context_hash {
                Some(h) => Some(h@),
                None => None,
            },
            pending_device_key_id: match self.pending_device_key_id {
                Some(id) => Some(id@),
                None => None,
            },
        }
    }

    /// The descriptor the responder serves.
    pub closed spec fn served(&self) -> ServiceDescriptor {
        self.descriptor
    }

    /// The device key the responder accepts proofs from.
    pub closed spec fn device_key(&self) -> Seq<u8> {
        self.device_public_key@
    }

    /// Whether the responder still waits for the initiator's handshake record.
    pub closed spec fn awaiting_handshake(&self) -> bool {
        self.handshake is Some
    }

    /// Whether the responder holds a transport-mode session.
    pub closed spec fn in_transport(&self) -> bool {
        self.transport is Some
    }

    /// The prologue and keys the `snow` responder waiting for the handshake
    /// record was built with, while there is one.
    pub closed spec fn handshake_setup(&self) -> Option<NoiseSetup> {
        match self.handshake {
            Some(h) => Some(h.setup()),
            None => None,
        }
    }

    /// Creates the responder for one session of `descriptor`, holding the
    /// service's static private key and the device key it accepts proofs
    /// from.
    ///
    /// Fails with the error building the descriptor's prologue reports, and
    /// with `InnerNoiseFailure` when `snow` refuses to build the responder.
    /// A private key longer than 32 bytes makes `snow` panic, so `requires`
    /// leaves it out.
    pub fn new(
        descriptor: ServiceDescriptor,
        server_private_key: &[u8],
        device_public_key: [u8; 32],
    ) -> (r: ApiResult<Self>)
        requires
            server_private_key@.len() <= 32,
        ensures
            descriptor.prologue_error() matches Some(e) ==> r == Err::<Self, ApiError>(e),
            r matches Err(e) ==> descriptor.prologue_error() == Some(e) || (
            descriptor.prologue_error() is None && e == ApiError::InnerNoiseFailure),
            r matches Ok(responder) ==> {
                &&& responder.wf()
                &&& responder.served() == descriptor
                &&& responder.device_key() == device_public_key@
                &&& responder.awaiting_handshake()
                &&& responder.handshake_setup() == Some(
                    NoiseSetup {
                        prologue: Some(descriptor.prologue_spec()),
                        remote_public_key: None,
                        local_private_key: Some(server_private_key@),
                    },
                )
                &&& !responder.in_transport()
                &&& responder.auth() == (ResponderAuth {
                    handshake_hash: None,
                    account_context_hash: None,
                    pending_device_key_id: None,
                })
            },
    {
        let prologue = descriptor.noise_prologue()?;
        let params = match parse_noise_params(NOISE_SUITE_V1) {
            Ok(params) => params,
            Err(_) => return Err(ApiError::InnerNoiseFailure),
        };
        let builder = builder_new(params);
        let builder = match builder_prologue(builder, prologue.as_slice()) {
            Ok(builder) => builder,
            Err(_) => return Err(ApiError::InnerNoiseFailure),
        };
        let builder = match builder_local_private_key(builder, server_private_key) {
            Ok(builder) => builder,
            Err(_) => return Err(ApiError::InnerNoiseFailure),
        };
        let handshake = match builder_build_responder(builder) {
            Ok(handshake) => handshake,
            Err(_) => return Err(ApiError::InnerNoiseFailure),
        };
        Ok(
            NoiseServiceResponder {
                descriptor,
                device_public_key,
                handshake: Some(handshake),
                handshake_hash: None,
                transport: None,
                account_context_hash: None,
                pending_device_key_id: None,
            },
        )
    }

    /// Processes one record from the client. The first record is the
    /// client's handshake message, answered with the responder's handshake
    /// message; every later record is decrypted, handled as `plaintext_step`
    /// says and its answer, if any, encrypted.
    ///
    /// After the handshake record the responder no longer waits for one; a
    /// failure leaves it without a session, as does any failure in
    /// transport mode. With no session every record is `TransportClosed`.
    /// In transport mode the handshake hash is kept, and a success moves
    /// what the responder remembers as one plaintext record does.
    pub fn process_record(&mut self, record: &[u8]) -> (r: ApiResult<Option<Vec<u8>>>)
        requires
            old(self).wf(),
        ensures
            final(self).wf(),
            final(self).served() == old(self).served(),
            final(self).device_key() == old(self).device_key(),
            !final(self).awaiting_handshake(),
            old(self).awaiting_handshake() ==> {
                &&& final(self).auth().account_context_hash == old(self).auth().account_context_hash
                &&& final(self).auth().pending_device_key_id == old(self).auth().pending_device_key_id
                &&& r matches Err(e) ==> !final(self).in_transport() && (e
                    == ApiError::InnerNoiseFailure || e == ApiError::PostHandshakeAuthFailure)
                &&& r matches Ok(answer) ==> answer matches Some(out) && out@.len()
                    <= MAX_RECORD_PAYLOAD_SIZE && final(self).in_transport() && final(self).auth().handshake_hash is Some
            },
            !old(self).awaiting_handshake() && !old(self).in_transport() ==> r == Err::<
                Option<Vec<u8>>,
                ApiError,
            >(ApiError::TransportClosed) && final(self).auth() == old(self).auth()
                && !final(self).in_transport(),
            !old(self).awaiting_handshake() && old(self).in_transport() ==> {
                &&& final(self).auth().handshake_hash == old(self).auth().handshake_hash
                &&& r is Err ==> !final(self).in_transport()
                &&& r is Ok ==> final(self).in_transport() && exists|p: Seq<u8>|
                    #![trigger plaintext_step(old(self).auth(), old(self).served(), old(self).device_key(), p)]
                    plaintext_step(old(self).auth(), old(self).served(), old(self).device_key(), p).0
                        == final(self).auth() && (plaintext_step(
                        old(self).auth(),
                        old(self).served(),
                        old(self).device_key(),
                        p,
                    ).1 matches Ok(answer) && (answer is None <==> r matches Ok(None)))
            },
    {
        let pending_handshake = self.handshake.take();
        if let Some(handshake) = pending_handshake {
            return self.process_handshake_record(record, handshake);
        }
        let mut transport = match self.transport.take() {
            Some(transport) => transport,
            None => return Err(ApiError::TransportClosed),
        };
        let mut plaintext: Vec<u8> = vec![0u8; MAX_RECORD_PAYLOAD_SIZE];
        let written = match transport_read_message(&mut transport, record, &mut plaintext) {
            Ok(n) => n,
            Err(_) => return Err(ApiError::InnerNoiseFailure),
        };
        plaintext.truncate(written);
        let ghost before = self.auth();
        let response = self.handle_plaintext(plaintext.as_slice())?;
        let outbound = match response {
            Some(answer) => Some(encrypt_response(&mut transport, answer.as_slice())?),
            None => None,
        };
        self.transport = Some(transport);
        let r: ApiResult<Option<Vec<u8>>> = Ok(outbound);
        assert(plaintext_step(before, self.served(), self.device_key(), plaintext@).0 == self.auth()
            && (plaintext_step(before, self.served(), self.device_key(), plaintext@).1 matches Ok(
            answer,
        ) && (answer is None <==> r matches Ok(None))));
        r
    }

    fn process_handshake_record(
        &mut self,
        record: &[u8],
        handshake: NoiseHandshake,
    ) -> (r: ApiResult<Option<Vec<u8>>>)
        requires
            !old(self).awaiting_handshake(),
            !old(self).in_transport(),
        ensures
            final(self).served() == old(self).served(),
            final(self).device_key() == old(self).device_key(),
            !final(self).awaiting_handshake(),
            final(self).auth().account_context_hash == old(self).auth().account_context_hash,
            final(self).auth().pending_device_key_id == old(self).auth().pending_device_key_id,
            r matches Err(e) ==> !final(self).in_transport() && (e == ApiError::InnerNoiseFailure
                || e == ApiError::PostHandshakeAuthFailure),
            r matches Ok(answer) ==> answer matches Some(out) && out@.len()
                <= MAX_RECORD_PAYLOAD_SIZE && final(self).in_transport() && final(self).auth().handshake_hash is Some,
    {
        let mut handshake = handshake;
        let mut empty: Vec<u8> = Vec::new();
        match handshake_read_message(&mut handshake, record, &mut empty) {
            Ok(_) => {},
            Err(_) => return Err(ApiError::InnerNoiseFailure),
        }
        let mut outbound: Vec<u8> = vec![0u8; MAX_RECORD_PAYLOAD_SIZE];
        let no_payload: Vec<u8> = Vec::new();
        let written = match handshake_write_message(
            &mut handshake,
            no_payload.as_slice(),
            &mut outbound,
        ) {
            Ok(n) => n,
            Err(_) => return Err(ApiError::InnerNoiseFailure),
        };
        outbound.truncate(written);
        let hash = handshake_hash(&handshake);
        self.handshake_hash = Some(fixed_bytes::<32>(hash.as_slice())?);
        let state = match handshake_into_transport_mode(handshake) {
            Ok(state) => state,
            Err(_) => return Err(ApiError::InnerNoiseFailure),
        };
        self.transport = Some(state);
        Ok(Some(outbound))
    }

    /// Handles one decrypted record; see `plaintext_step`.
    pub fn handle_plaintext(&mut self, record: &[u8]) -> (r: ApiResult<Option<Vec<u8>>>)
        ensures
            (final(self).auth(), answer_view(r)) == plaintext_step(
                old(self).auth(),
                old(self).served(),
                old(self).device_key(),
                record@,
            ),
            final(self).served() == old(self).served(),
            final(self).device_key() == old(self).device_key(),
            final(self).awaiting_handshake() == old(self).awaiting_handshake(),
            final(self).in_transport() == old(self).in_transport(),
    {
        if is_close_message(record) {
            return Ok(None);
        }
        if let Ok(request) = AccountAuthRequest::decode(record) {
            return self.handle_account_auth(request);
        }
        if let Ok(start) = DeviceAuthStart::decode(record) {
            return self.handle_device_start(start);
        }
        if let Ok(finish) = decode_device_auth_finish(record) {
            return self.handle_device_finish(finish);
        }
        if bytes_equal(record, SMOKE_PING.as_slice()) {
            return Ok(Some(vstd::slice::slice_to_vec(SMOKE_PONG.as_slice())));
        }
        Err(ApiError::PostHandshakeAuthFailure)
    }

    fn handle_account_auth(&mut self, request: AccountAuthRequest) -> (r: ApiResult<Option<Vec<u8>>>)
        ensures
            final(self).auth() == (ResponderAuth {
                handshake_hash: old(self).auth().handshake_hash,
                account_context_hash: Some(ACCOUNT_CONTEXT_HASH@),
                pending_device_key_id: old(self).auth().pending_device_key_id,
            }),
            answer_view(r) == some_reply(account_reply(request.account_id@)),
            final(self).served() == old(self).served(),
            final(self).device_key() == old(self).device_key(),
            final(self).awaiting_handshake() == old(self).awaiting_handshake(),
            final(self).in_transport() == old(self).in_transport(),
    {
        self.account_context_hash = Some(ACCOUNT_CONTEXT_HASH);
        let session_context_id = "session-smoke".to_owned();
        proof {
            reveal_strlit("session-smoke");
        }
        let result = AccountAuthResult {
            account_id: request.account_id,
            session_context_id,
            account_context_hash: ACCOUNT_CONTEXT_HASH,
            freshness: AccountFreshness::Fresh,
        };
        match result.encode() {
            Ok(bytes) => Ok(Some(bytes)),
            Err(e) => Err(e),
        }
    }

    fn handle_device_start(&mut self, start: DeviceAuthStart) -> (r: ApiResult<Option<Vec<u8>>>)
        ensures
            final(self).auth() == (ResponderAuth {
                handshake_hash: old(self).auth().handshake_hash,
                account_context_hash: old(self).auth().account_context_hash,
                pending_device_key_id: Some(start.device_key_id@),
            }),
            answer_view(r) == Ok::<Option<Seq<u8>>, ApiError>(Some(challenge_reply())),
            final(self).served() == old(self).served(),
            final(self).device_key() == old(self).device_key(),
            final(self).awaiting_handshake() == old(self).awaiting_handshake(),
            final(self).in_transport() == old(self).in_transport(),
    {
        self.pending_device_key_id = Some(start.device_key_id);
        let challenge = DeviceChallenge {
            server_challenge: DEVICE_CHALLENGE,
            expires_at_unix_ms: CHALLENGE_EXPIRES_AT_UNIX_MS,
        };
        match challenge.encode_auth() {
            Ok(bytes) => Ok(Some(bytes)),
            Err(e) => Err(e),
        }
    }

    fn handle_device_finish(&mut self, finish: DeviceProofFinish) -> (r: ApiResult<Option<Vec<u8>>>)
        ensures
            final(self).auth() == (ResponderAuth {
                handshake_hash: old(self).auth().handshake_hash,
                account_context_hash: old(self).auth().account_context_hash,
                pending_device_key_id: None,
            }),
            answer_view(r) == some_reply(
                finish_reply(
                    old(self).auth(),
                    old(self).served(),
                    old(self).device_key(),
                    finish_view(finish),
                ),
            ),
            final(self).served() == old(self).served(),
            final(self).device_key() == old(self).device_key(),
            final(self).awaiting_handshake() == old(self).awaiting_handshake(),
            final(self).in_transport() == old(self).in_transport(),
    {
        let expected_key_id = match self.pending_device_key_id.take() {
            Some(id) => id,
            None => return Err(ApiError::PostHandshakeAuthFailure),
        };
        if expected_key_id != finish.device_key_id || !bytes_equal(
            finish.server_challenge.as_slice(),
            DEVICE_CHALLENGE.as_slice(),
        ) {
            return Err(ApiError::PostHandshakeAuthFailure);
        }
        let noise_handshake_hash = match self.handshake_hash {
            Some(h) => h,
            None => return Err(ApiError::PostHandshakeAuthFailure),
        };
        let context = self.descriptor.inner_channel_context()?;
        let account_context_hash = match self.account_context_hash {
            Some(h) => h,
            None => return Err(ApiError::PostHandshakeAuthFailure),
        };
        let input = DeviceProofInput {
            noise_handshake_hash,
            server_challenge: finish.server_challenge,
            context,
            account_context_hash,
            device_key_id: finish.device_key_id.clone(),
            purpose: DeviceProofPurpose::KnownDeviceReauth,
            expires_at_unix_ms: finish.expires_at_unix_ms,
        };
        let canonical = input.canonical_bytes()?;
        verify_device_proof_signature(&self.device_public_key, &canonical, &finish.signature)?;
        let result = DeviceResult { device_key_id: finish.device_key_id, state: DeviceState::Active };
        match result.encode_auth() {
            Ok(bytes) => Ok(Some(bytes)),
            Err(e) => Err(e),
        }
    }
}

/// A close record is never an application message: four bytes leave no
/// room for the fields a message counts.
proof fn lemma_finish_not_other(record: Seq<u8>)
    requires
        device_finish_of(record) is Some,
    ensures
        !is_close_spec(record),
        account_request_of(record) is None,
        device_start_of(record) is None,
{
    if record.len() == 4 {
        assert(record.skip(4).len() == 0);
    }
}

/// Law: a device-authentication finish is accepted only for the key
/// identifier whose start is pending, only once the session holds a
/// handshake hash and an account context and only when the device's
/// signature verifies over the proof bytes; whatever its outcome it
/// consumes the pending start, so the same finish sent again is refused.
pub proof fn lemma_device_finish_single_use(
    a: ResponderAuth,
    d: ServiceDescriptor,
    device_key: Seq<u8>,
    record: Seq<u8>,
)
    requires
        device_finish_of(record) is Some,
    ensures
        ({
            let f = device_finish_of(record)->0;
            let (after, answer) = plaintext_step(a, d, device_key, record);
            &&& after.pending_device_key_id is None
            &&& after.handshake_hash == a.handshake_hash
            &&& after.account_context_hash == a.account_context_hash
            &&& answer is Ok ==> {
                &&& a.pending_device_key_id == Some(f.device_key_id)
                &&& f.server_challenge == DEVICE_CHALLENGE@
                &&& a.handshake_hash is Some
                &&& a.account_context_hash is Some
                &&& ed25519_verifies_strict(
                    device_key,
                    reauth_proof_bytes(
                        d,
                        a.handshake_hash->0,
                        a.account_context_hash->0,
                        f,
                    ),
                    f.signature,
                )
            }
            &&& plaintext_step(after, d, device_key, record).1 == Err::<
                Option<Seq<u8>>,
                ApiError,
            >(ApiError::PostHandshakeAuthFailure)
        }),
{
    lemma_finish_not_other(record);
}

/// Frames a record for the service's `QUIC` stream: its 16-bit big-endian
/// length, then the record. A record longer than `u16::MAX` bytes is
/// refused with `RecordTooLarge`.
pub fn encode_quic_record(record: &[u8]) -> (r: ApiResult<Vec<u8>>)
    ensures
        record@.len() > u16::MAX ==> r == Err::<Vec<u8>, ApiError>(
            ApiError::RecordTooLarge { actual: record@.len() as usize, max: 65535 },
        ),
        record@.len() <= u16::MAX ==> (r matches Ok(v) && v@ == len_prefixed(record@)),
{
    let mut encoded: Vec<u8> = Vec::new();
    match put_len_prefixed_bytes(&mut encoded, record) {
        Ok(()) => {
            assert(encoded@ =~= len_prefixed(record@));
            Ok(encoded)
        },
        Err(_) => Err(ApiError::RecordTooLarge { actual: record.len(), max: 65535 }),
    }
}

/// Encrypts a reply record; a failed encryption is an `InnerNoiseFailure`.
fn encrypt_response(transport: &mut snow::TransportState, plaintext: &[u8]) -> (r: ApiResult<Vec<u8>>)
    ensures
        r is Err ==> r == Err::<Vec<u8>, ApiError>(ApiError::InnerNoiseFailure),
        r matches Ok(out) ==> out@.len() <= MAX_RECORD_PAYLOAD_SIZE,
{
    let mut outbound: Vec<u8> = vec![0u8; MAX_RECORD_PAYLOAD_SIZE];
    let written = match transport_write_message(transport, plaintext, &mut outbound) {
        Ok(n) => n,
        Err(_) => return Err(ApiError::InnerNoiseFailure),
    };
    outbound.truncate(written);
    Ok(outbound)
}

} // verus!

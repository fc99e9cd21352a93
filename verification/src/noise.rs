//! The decisions of the client-side `NK1` secure-ready evaluator: what must
//! hold of a descriptor before a handshake starts, how transport errors
//! during the handshake are normalized, how large a record may be, and the
//! encrypted close message.

use vstd::prelude::*;

use crate::codec::{bytes_equal, extend_bytes, u16_be, u16_to_be_bytes};
use crate::constants::{MAX_APPLICATION_PLAINTEXT_SIZE, MAX_RECORD_PAYLOAD_SIZE, NOISE_SUITE_V1};
use crate::descriptor::{ServiceDescriptor, TrustAnchor, first_error, service_key_error};
use crate::descriptor_auth::authorization_error;
use crate::descriptor_examples::example_descriptor_trust_anchors;
use crate::error::{ApiError, ApiResult};
use crate::inner_context::{NoisePublicKey, base64_32};
use crate::service_key::{obfuscated_service_static_public_key, service_static_public_key_spec};
use crate::noise_backend::{
    builder_build_initiator, builder_new, builder_prologue,
    builder_remote_public_key, NoiseHandshake, NoiseSetup, handshake_hash, handshake_into_transport_mode,
    handshake_is_finished, handshake_read_message, handshake_remote_static,
    handshake_write_message, parse_noise_params,
    transport_read_message, transport_write_message,
};
use crate::session::{CloseDirective, SecureReadyArtifacts};
use crate::transport::{CarrierKind, FallbackReason};

verus! {

/// Message type of the v1 encrypted close message.
pub const CLOSE_MESSAGE_TYPE_V1: u8 = 1;

/// Client-side `NK1` secure-ready evaluator: the pinned descriptor roots and
/// the pinned service Noise static public keys.
#[derive(Debug)]
pub struct SnowNk1ClientEvaluator {
    trusted_roots: Vec<TrustAnchor>,
    pinned_service_static_public_keys: Vec<NoisePublicKey>,
}

impl Default for SnowNk1ClientEvaluator {
    fn default() -> (e: Self)
        ensures
            e.roots() == seq![crate::descriptor_auth::example_anchor_view()],
            e.pinned_keys().len() == 1,
            e.pinned_keys()[0]@ == service_static_public_key_spec(),
    {
        SnowNk1ClientEvaluator::new()
    }
}

impl Clone for SnowNk1ClientEvaluator {
    fn clone(&self) -> (r: Self)
        ensures
            r.roots() == self.roots(),
            r.pinned_keys() == self.pinned_keys(),
    {
        let mut keys: Vec<NoisePublicKey> = Vec::new();
        let mut i: usize = 0;
        while i < self.pinned_service_static_public_keys.len()
            invariant
                i <= self.pinned_service_static_public_keys@.len(),
                keys@ == self.pinned_service_static_public_keys@.take(i as int),
            decreases self.pinned_service_static_public_keys@.len() - i,
        {
            keys.push(self.pinned_service_static_public_keys[i]);
            i = i + 1;
            assert(keys@ =~= self.pinned_service_static_public_keys@.take(i as int));
        }
        assert(keys@ =~= self.pinned_service_static_public_keys@);
        let roots = crate::descriptor::clone_trust_anchors(&self.trusted_roots);
        assert(roots.deep_view() =~= self.trusted_roots.deep_view());
        SnowNk1ClientEvaluator { trusted_roots: roots, pinned_service_static_public_keys: keys }
    }
}

/// What a handshake starts from: the canonical prologue and the pinned
/// service static key the handshake must authenticate.
#[derive(Debug, PartialEq, Eq)]
pub struct HandshakeInputs {
    /// Canonical Noise prologue of the descriptor.
    pub prologue: Vec<u8>,
    /// Authorized and pinned service Noise static public key.
    pub service_static_public_key: NoisePublicKey,
}

/// Whether `key` is one of the pinned keys.
pub open spec fn key_pinned(pinned: Seq<NoisePublicKey>, key: Seq<u8>) -> bool {
    exists|i: int| 0 <= i < pinned.len() && pinned[i]@ == key
}

impl SnowNk1ClientEvaluator {
    /// The pinned descriptor roots.
    pub closed spec fn roots(&self) -> Seq<crate::descriptor::AnchorView> {
        self.trusted_roots.deep_view()
    }

    /// The pinned service Noise static public keys.
    pub closed spec fn pinned_keys(&self) -> Seq<NoisePublicKey> {
        self.pinned_service_static_public_keys@
    }

    /// Creates an evaluator with the built-in example descriptor roots and
    /// the built-in service static public key.
    pub fn new() -> (e: Self)
        ensures
            e.roots() == seq![crate::descriptor_auth::example_anchor_view()],
            e.pinned_keys().len() == 1,
            e.pinned_keys()[0]@ == service_static_public_key_spec(),
    {
        let mut keys: Vec<NoisePublicKey> = Vec::new();
        keys.push(obfuscated_service_static_public_key());
        Self::with_pinned_trust(example_descriptor_trust_anchors(), keys)
    }

    /// Creates an evaluator with pinned descriptor roots and service static
    /// public keys.
    ///
    /// The service static key is public identity material, but it still must
    /// be pinned or authorized out-of-band before an `NK1` handshake is accepted.
    pub fn with_pinned_trust(
        trusted_roots: Vec<TrustAnchor>,
        pinned_service_static_public_keys: Vec<NoisePublicKey>,
    ) -> (e: Self)
        ensures
            e.roots() == trusted_roots.deep_view(),
            e.pinned_keys() == pinned_service_static_public_keys@,
    {
        SnowNk1ClientEvaluator { trusted_roots, pinned_service_static_public_keys }
    }

    /// The pinned descriptor roots.
    pub fn trusted_roots(&self) -> (r: &Vec<TrustAnchor>)
        ensures
            r.deep_view() == self.roots(),
    {
        &self.trusted_roots
    }

    /// The error the checks before a handshake report for `descriptor` at
    /// `now`, if any: authorization against the pinned roots, the canonical
    /// prologue, the service static key, and that the key is pinned.
    pub open spec fn preflight_error(&self, descriptor: ServiceDescriptor, now: u64) -> Option<
        ApiError,
    > {
        first_error(
            authorization_error(descriptor, self.roots(), now),
            first_error(
                descriptor.prologue_error(),
                first_error(
                    service_key_error(descriptor.service_static_public_key@),
                    if key_pinned(
                        self.pinned_keys(),
                        base64_32(descriptor.service_static_public_key@)->0,
                    ) {
                        None
                    } else {
                        Some(ApiError::InnerTrustFailure)
                    },
                ),
            ),
        )
    }

    /// Checks a descriptor before a handshake and returns what the handshake
    /// starts from.
    ///
    /// Fails when the descriptor is not authorized by a pinned root at
    /// `now_unix_seconds`, when its prologue does not build, and with
    /// `InnerTrustFailure` when its service static key is not pinned.
    pub fn prepare_handshake(&self, descriptor: &ServiceDescriptor, now_unix_seconds: u64) -> (r:
        ApiResult<HandshakeInputs>)
        ensures
            r is Ok <==> self.preflight_error(*descriptor, now_unix_seconds) is None,
            r is Err ==> r == Err::<HandshakeInputs, ApiError>(
                self.preflight_error(*descriptor, now_unix_seconds)->0,
            ),
            r matches Ok(inputs) ==> inputs.prologue@ == descriptor.prologue_spec() && Some(
                inputs.service_static_public_key@,
            ) == base64_32(descriptor.service_static_public_key@),
    {
        descriptor.authorize_at(now_unix_seconds, self.trusted_roots.as_slice())?;
        let prologue = descriptor.noise_prologue()?;
        let service_static_public_key = descriptor.service_static_public_key_bytes()?;
        if !self.is_pinned(&service_static_public_key) {
            return Err(ApiError::InnerTrustFailure);
        }
        Ok(HandshakeInputs { prologue, service_static_public_key })
    }

    fn is_pinned(&self, key: &NoisePublicKey) -> (b: bool)
        ensures
            b == key_pinned(self.pinned_keys(), key@),
    {
        let keys = &self.pinned_service_static_public_keys;
        let mut i: usize = 0;
        while i < keys.len()
            invariant
                i <= keys@.len(),
                keys@ == self.pinned_keys(),
                forall|j: int| 0 <= j < i ==> keys@[j]@ != key@,
            decreases keys@.len() - i,
        {
            if bytes_equal(&keys[i], key) {
                return true;
            }
            i = i + 1;
        }
        false
    }
}


/// The errors a failed `snow` step of the handshake reports: a refused
/// remote key is a trust failure, everything else a Noise failure.
pub open spec fn noise_step_error(e: ApiError) -> bool {
    e == ApiError::InnerNoiseFailure || e == ApiError::InnerTrustFailure
}

/// A client `NK1` handshake after its first message: the initiator state and
/// the pinned service static key the handshake authenticates.
pub struct Nk1ClientHandshake {
    initiator: NoiseHandshake,
    service_static_public_key: NoisePublicKey,
}

/// A finished client handshake: the record cipher for the secure channel and
/// the secure-ready artifacts.
pub struct Nk1SecureChannel {
    /// Transport-mode record protection.
    pub cipher: NoiseRecordCipher,
    /// Handshake hash, channel binding and service static key.
    pub artifacts: SecureReadyArtifacts,
}

/// Noise transport-mode protection of application records.
pub struct NoiseRecordCipher {
    state: snow::TransportState,
}

/// Whether `artifacts` carries one handshake hash as both the hash and the
/// channel binding, and `key` as the service static key.
pub open spec fn artifacts_of(artifacts: SecureReadyArtifacts, key: Seq<u8>) -> bool {
    &&& artifacts.handshake_hash matches Some(h)
    &&& artifacts.channel_binding matches Some(b)
    &&& h@ == b@
    &&& artifacts.service_static_public_key matches Some(k)
    &&& k@ == key
}

impl SnowNk1ClientEvaluator {
    /// Starts a client handshake for `descriptor` at `now_unix_seconds`:
    /// checks the descriptor as `prepare_handshake` does, builds the `snow`
    /// initiator over the canonical prologue and the pinned key, and writes
    /// the first handshake record.
    ///
    /// A refused descriptor gives the error `prepare_handshake` reports; a
    /// failed `snow` step gives `InnerTrustFailure` for the remote key and
    /// `InnerNoiseFailure` otherwise.
    pub fn start_handshake(&self, descriptor: &ServiceDescriptor, now_unix_seconds: u64) -> (r:
        ApiResult<(Nk1ClientHandshake, Vec<u8>)>)
        ensures
            self.preflight_error(*descriptor, now_unix_seconds) matches Some(e) ==> r == Err::<
                (Nk1ClientHandshake, Vec<u8>),
                ApiError,
            >(e),
            r matches Err(e) ==> self.preflight_error(*descriptor, now_unix_seconds) == Some(e)
                || (self.preflight_error(*descriptor, now_unix_seconds) is None
                && noise_step_error(e)),
            r matches Ok((handshake, first)) ==> self.preflight_error(
                *descriptor,
                now_unix_seconds,
            ) is None && Some(handshake.service_key()) == base64_32(
                descriptor.service_static_public_key@,
            ) && first@.len() <= MAX_RECORD_PAYLOAD_SIZE,
            r matches Ok((handshake, _)) ==> handshake.setup() == (NoiseSetup {
                prologue: Some(descriptor.prologue_spec()),
                remote_public_key: Some(handshake.service_key()),
                local_private_key: None,
            }),
    {
        let inputs = self.prepare_handshake(descriptor, now_unix_seconds)?;
        let params = match parse_noise_params(NOISE_SUITE_V1) {
            Ok(params) => params,
            Err(_) => return Err(ApiError::InnerNoiseFailure),
        };
        let builder = builder_new(params);
        let builder = match builder_prologue(builder, inputs.prologue.as_slice()) {
            Ok(builder) => builder,
            Err(_) => return Err(ApiError::InnerNoiseFailure),
        };
        let builder = match builder_remote_public_key(builder, &inputs.service_static_public_key) {
            Ok(builder) => builder,
            Err(_) => return Err(ApiError::InnerTrustFailure),
        };
        let mut initiator = match builder_build_initiator(builder) {
            Ok(initiator) => initiator,
            Err(_) => return Err(ApiError::InnerNoiseFailure),
        };
        let mut outbound: Vec<u8> = vec![0u8; MAX_RECORD_PAYLOAD_SIZE];
        let no_payload: Vec<u8> = Vec::new();
        let first_len = match handshake_write_message(
            &mut initiator,
            no_payload.as_slice(),
            &mut outbound,
        ) {
            Ok(n) => n,
            Err(_) => return Err(ApiError::InnerNoiseFailure),
        };
        outbound.truncate(first_len);
        let handshake = Nk1ClientHandshake {
            initiator,
            service_static_public_key: inputs.service_static_public_key,
        };
        Ok((handshake, outbound))
    }
}

impl Nk1ClientHandshake {
    /// The pinned service static key this handshake authenticates.
    pub closed spec fn service_key(&self) -> Seq<u8> {
        self.service_static_public_key@
    }

    /// The prologue and keys the `snow` initiator was built with.
    pub closed spec fn setup(&self) -> NoiseSetup {
        self.initiator.setup()
    }

    /// Finishes the handshake with the responder's record: reads it, checks
    /// that it carried no payload, finished the handshake and presented the
    /// pinned service static key, and moves to transport mode.
    ///
    /// A payload is an `InnerTrustFailure`; a record that does not
    /// authenticate, an unfinished handshake, another static key or a
    /// failed switch to transport mode is an `InnerNoiseFailure`. On success the artifacts carry the
    /// handshake hash (32 or 64 bytes, as the suite's hash gives) as hash and
    /// channel binding, and the pinned key.
    pub fn finish(self, responder_record: &[u8]) -> (r: ApiResult<Nk1SecureChannel>)
        ensures
            r matches Err(e) ==> noise_step_error(e),
            r matches Ok(channel) ==> artifacts_of(channel.artifacts, self.service_key()),
            r matches Ok(channel) ==> channel.artifacts.handshake_hash matches Some(h) && (h@.len()
                == 32 || h@.len() == 64),
    {
        let Nk1ClientHandshake { mut initiator, service_static_public_key } = self;
        let mut payload: Vec<u8> = vec![0u8; MAX_RECORD_PAYLOAD_SIZE];
        let payload_len = match handshake_read_message(
            &mut initiator,
            responder_record,
            &mut payload,
        ) {
            Ok(n) => n,
            Err(_) => return Err(ApiError::InnerNoiseFailure),
        };
        let remote_static = handshake_remote_static(&initiator);
        let remote_static_slice: Option<&[u8]> = match &remote_static {
            Some(key) => Some(key.as_slice()),
            None => None,
        };
        check_handshake_completion(
            payload_len,
            handshake_is_finished(&initiator),
            remote_static_slice,
            &service_static_public_key,
        )?;
        let hash = handshake_hash(&initiator);
        let state = match handshake_into_transport_mode(initiator) {
            Ok(state) => state,
            Err(_) => return Err(ApiError::InnerNoiseFailure),
        };
        let mut binding: Vec<u8> = Vec::new();
        extend_bytes(&mut binding, hash.as_slice());
        let mut key: Vec<u8> = Vec::new();
        extend_bytes(&mut key, &service_static_public_key);
        assert(binding@ =~= hash@);
        assert(key@ =~= service_static_public_key@);
        Ok(
            Nk1SecureChannel {
                cipher: NoiseRecordCipher { state },
                artifacts: SecureReadyArtifacts {
                    handshake_hash: Some(hash),
                    channel_binding: Some(binding),
                    service_static_public_key: Some(key),
                },
            },
        )
    }
}

impl NoiseRecordCipher {
    /// Encrypts an application record.
    ///
    /// A record over the v1 plaintext budget is refused with
    /// `RecordTooLarge`; a failed encryption is an `InnerNoiseFailure`. The
    /// sealed record fits one record payload.
    pub fn seal(&mut self, plaintext: &[u8]) -> (r: ApiResult<Vec<u8>>)
        ensures
            plaintext@.len() > MAX_APPLICATION_PLAINTEXT_SIZE ==> r == Err::<Vec<u8>, ApiError>(
                ApiError::RecordTooLarge {
                    actual: plaintext@.len() as usize,
                    max: MAX_APPLICATION_PLAINTEXT_SIZE,
                },
            ),
            plaintext@.len() <= MAX_APPLICATION_PLAINTEXT_SIZE && r is Err ==> r == Err::<
                Vec<u8>,
                ApiError,
            >(ApiError::InnerNoiseFailure),
            r matches Ok(sealed) ==> sealed@.len() <= MAX_RECORD_PAYLOAD_SIZE,
    {
        check_plaintext_size(plaintext.len())?;
        let mut ciphertext: Vec<u8> = vec![0u8; MAX_RECORD_PAYLOAD_SIZE];
        let written = match transport_write_message(&mut self.state, plaintext, &mut ciphertext) {
            Ok(n) => n,
            Err(_) => return Err(ApiError::InnerNoiseFailure),
        };
        ciphertext.truncate(written);
        Ok(ciphertext)
    }

    /// Decrypts a received record; one that does not authenticate is an
    /// `InnerNoiseFailure`.
    pub fn open(&mut self, ciphertext: &[u8]) -> (r: ApiResult<Vec<u8>>)
        ensures
            r is Err ==> r == Err::<Vec<u8>, ApiError>(ApiError::InnerNoiseFailure),
            r matches Ok(plaintext) ==> plaintext@.len() <= MAX_RECORD_PAYLOAD_SIZE,
    {
        let mut plaintext: Vec<u8> = vec![0u8; MAX_RECORD_PAYLOAD_SIZE];
        let written = match transport_read_message(&mut self.state, ciphertext, &mut plaintext) {
            Ok(n) => n,
            Err(_) => return Err(ApiError::InnerNoiseFailure),
        };
        plaintext.truncate(written);
        Ok(plaintext)
    }

    /// Encrypts the close message for `directive`.
    pub fn seal_close(&mut self, directive: CloseDirective) -> (r: ApiResult<Vec<u8>>)
        ensures
            r is Err ==> r == Err::<Vec<u8>, ApiError>(ApiError::InnerNoiseFailure),
            r matches Ok(sealed) ==> sealed@.len() <= MAX_RECORD_PAYLOAD_SIZE,
    {
        let close_record = encode_close_message(directive);
        self.seal(close_record.as_slice())
    }
}

/// What the responder's handshake message must leave behind: no payload
/// (`NK1` carries none, and any payload is a trust failure), a finished
/// handshake, and as the service's static key the pinned key the handshake
/// was built for.
pub open spec fn completion_error(
    payload_len: usize,
    finished: bool,
    remote_static: Option<Seq<u8>>,
    pinned: Seq<u8>,
) -> Option<ApiError> {
    if payload_len != 0 {
        Some(ApiError::InnerTrustFailure)
    } else if !finished {
        Some(ApiError::InnerNoiseFailure)
    } else if remote_static != Some(pinned) {
        Some(ApiError::InnerNoiseFailure)
    } else {
        None
    }
}

/// The bytes of an optional slice.
pub open spec fn bytes_view(bytes: Option<&[u8]>) -> Option<Seq<u8>> {
    match bytes {
        Some(b) => Some(b@),
        None => None,
    }
}

/// Checks what the responder's handshake message left behind: the payload
/// length it carried, whether the handshake is finished, and the static key
/// the service presented against the pinned one.
pub fn check_handshake_completion(
    payload_len: usize,
    finished: bool,
    remote_static: Option<&[u8]>,
    pinned: &NoisePublicKey,
) -> (r: ApiResult<()>)
    ensures
        r is Ok <==> completion_error(
            payload_len,
            finished,
            bytes_view(remote_static),
            pinned@,
        ) is None,
        r is Err ==> r == Err::<(), ApiError>(
            completion_error(payload_len, finished, bytes_view(remote_static), pinned@)->0,
        ),
{
    if payload_len != 0 {
        return Err(ApiError::InnerTrustFailure);
    }
    if !finished {
        return Err(ApiError::InnerNoiseFailure);
    }
    match remote_static {
        Some(key) => {
            if !bytes_equal(key, pinned) {
                return Err(ApiError::InnerNoiseFailure);
            }
        },
        None => return Err(ApiError::InnerNoiseFailure),
    }
    Ok(())
}

/// How a transport error during the handshake is reported.
pub open spec fn normalized_handshake_error(carrier: CarrierKind, error: ApiError) -> ApiError {
    if carrier == CarrierKind::Quic && error == ApiError::TransportClosed {
        ApiError::TransportFallback(FallbackReason::OuterQuicClosedEarly)
    } else {
        error
    }
}

/// Normalizes a transport error seen during the handshake: a `QUIC`
/// transport that closes before `Secure Ready` becomes a fallback-eligible
/// early close; every other error is kept.
pub fn normalize_handshake_transport_error(carrier: CarrierKind, error: ApiError) -> (e: ApiError)
    ensures
        e == normalized_handshake_error(carrier, error),
{
    match (carrier, error) {
        (CarrierKind::Quic, ApiError::TransportClosed) => ApiError::TransportFallback(
            FallbackReason::OuterQuicClosedEarly,
        ),
        (_, error) => error,
    }
}

/// Checks that an application record fits the v1 plaintext budget.
pub fn check_plaintext_size(len: usize) -> (r: ApiResult<()>)
    ensures
        r is Ok <==> len <= MAX_APPLICATION_PLAINTEXT_SIZE,
        r is Err ==> r == Err::<(), ApiError>(
            ApiError::RecordTooLarge { actual: len, max: MAX_APPLICATION_PLAINTEXT_SIZE },
        ),
{
    if len > MAX_APPLICATION_PLAINTEXT_SIZE {
        return Err(ApiError::RecordTooLarge { actual: len, max: MAX_APPLICATION_PLAINTEXT_SIZE });
    }
    Ok(())
}

/// The v1 close message: type, big-endian code, drain flag.
pub open spec fn close_message_spec(directive: CloseDirective) -> Seq<u8> {
    seq![CLOSE_MESSAGE_TYPE_V1] + u16_be(directive.code) + seq![
        if directive.drain {
            1u8
        } else {
            0u8
        },
    ]
}

/// Encodes the encrypted close message for a directive.
pub fn encode_close_message(directive: CloseDirective) -> (out: Vec<u8>)
    ensures
        out@ == close_message_spec(directive),
{
    let mut out: Vec<u8> = Vec::new();
    out.push(CLOSE_MESSAGE_TYPE_V1);
    let code = u16_to_be_bytes(directive.code);
    out.push(code[0]);
    out.push(code[1]);
    out.push(if directive.drain { 1 } else { 0 });
    assert(out@ =~= close_message_spec(directive));
    out
}

/// What decoding a close message gives: a directive for four bytes that
/// start with the close type, nothing otherwise.
pub open spec fn decode_close_spec(record: Seq<u8>) -> Option<CloseDirective> {
    if record.len() != 4 || record[0] != CLOSE_MESSAGE_TYPE_V1 {
        None
    } else {
        Some(
            CloseDirective {
                code: (record[1] as int * 256 + record[2] as int) as u16,
                drain: record[3] != 0,
            },
        )
    }
}

/// Decodes an encrypted close message.
pub fn decode_close_message(record: &[u8]) -> (r: Option<CloseDirective>)
    ensures
        r == decode_close_spec(record@),
{
    if record.len() != 4 || record[0] != CLOSE_MESSAGE_TYPE_V1 {
        return None;
    }
    let code = (record[1] as u16) * 256 + (record[2] as u16);
    Some(CloseDirective { code, drain: record[3] != 0 })
}

/// Decoding an encoded close message gives the directive back.
pub proof fn lemma_close_message_round_trip(directive: CloseDirective)
    ensures
        decode_close_spec(close_message_spec(directive)) == Some(directive),
{
    let m = close_message_spec(directive);
    assert(m.len() == 4);
    assert(m[1] == (directive.code / 256) as u8 && m[2] == (directive.code % 256) as u8);
    assert(m[1] as int * 256 + m[2] as int == directive.code);
}

} // verus!

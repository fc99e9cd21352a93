//! The loopback service fixture of the smoke harness: a fresh service key
//! pair, the example descriptor re-signed for it, descriptors pointed at
//! loopback ports, and one responder per session.

use vstd::prelude::*;

use crate::compat::{decimal_text, format_i64};
use crate::constants::{NOISE_SUITE_V1, QUIC_ALPN_V1, WSS_SUBPROTOCOL_V1};
use crate::crypto::base64_encode;
use crate::descriptor::{QuicTarget, ServiceDescriptor, WssTarget, descriptor_copy};
use crate::crypto::{ed25519_public_key_of, ed25519_public_key_valid};
use crate::descriptor_auth::{
    EXAMPLE_DESCRIPTOR_SIGNING_KEY, body_error_with, example_anchor_view, example_body_hash,
    lemma_example_signature_keeps_validity, signed_by_example,
};
use crate::inner_context::nonzero;
use crate::descriptor_examples::example_service_descriptor;
use crate::error::{ApiError, ApiResult};
use crate::inner_context::base64_32;

use crate::noise_backend::{
    builder_generate_keypair, builder_new, noise_params_parse, parse_noise_params,
};
use crate::service_responder::{NoiseServiceResponder, ResponderAuth};
use crate::text::concat_str;
use crate::transport::CarrierKind;

verus! {

/// A loopback service: its descriptor, its static key pair and the device
/// key it accepts proofs from.
pub struct LocalServiceFixture {
    descriptor: ServiceDescriptor,
    server_private_key: [u8; 32],
    server_public_key: [u8; 32],
    device_public_key: [u8; 32],
}

/// The `WSS` URL of a loopback port.
pub open spec fn loopback_wss_url(port: u16) -> Seq<char> {
    "wss://127.0.0.1:"@ + decimal_text(port as int) + "/tunnel"@
}

/// Whether `after` is `before` with both carrier targets pointed at the
/// loopback ports: `QUIC` at `127.0.0.1` with the v1 ALPN and no SNI
/// override, `WSS` at the loopback URL with the v1 subprotocol and no
/// authority override.
pub open spec fn pointed_at(
    before: ServiceDescriptor,
    after: ServiceDescriptor,
    quic_port: u16,
    wss_port: u16,
) -> bool {
    &&& after.descriptor_version == before.descriptor_version
    &&& after.descriptor_serial == before.descriptor_serial
    &&& after.not_before == before.not_before
    &&& after.not_after == before.not_after
    &&& after.environment_id == before.environment_id
    &&& after.service_id == before.service_id
    &&& after.service_authority == before.service_authority
    &&& after.protocol_id == before.protocol_id
    &&& after.noise_suite == before.noise_suite
    &&& after.service_static_public_key == before.service_static_public_key
    &&& after.selection_policy == before.selection_policy
    &&& after.carriers.quic matches Some(q)
    &&& q.connect_host@ == "127.0.0.1"@
    &&& q.port == quic_port
    &&& q.alpn@ == QUIC_ALPN_V1@
    &&& q.sni_override is None
    &&& after.carriers.wss matches Some(w)
    &&& w.url@ == loopback_wss_url(wss_port)
    &&& w.subprotocol@ == WSS_SUBPROTOCOL_V1@
    &&& w.authority_override is None
}

/// Whether a descriptor pointed at loopback ports re-signs into a valid
/// one: its canonical body builds with the example root and hashes to
/// something other than zeros, its identity and carriers are valid, and
/// Ed25519 accepts the example root's key.
pub open spec fn loopback_signable(mid: ServiceDescriptor) -> bool {
    &&& body_error_with(mid, seq![example_anchor_view()]) is None
    &&& nonzero(example_body_hash(mid))
    &&& mid.identity_error() is None
    &&& mid.carrier_error() is None
    &&& ed25519_public_key_valid(ed25519_public_key_of(EXAMPLE_DESCRIPTOR_SIGNING_KEY@))
}

impl LocalServiceFixture {
    /// The descriptor the fixture serves.
    pub closed spec fn served(&self) -> ServiceDescriptor {
        self.descriptor
    }

    /// The service's static public key.
    pub closed spec fn public_key(&self) -> Seq<u8> {
        self.server_public_key@
    }

    /// The device key the fixture's responders accept proofs from.
    pub closed spec fn device_key(&self) -> Seq<u8> {
        self.device_public_key@
    }

    /// Creates a fixture with a fresh service key pair: the example
    /// descriptor with the new public key, re-signed by the example root.
    ///
    /// A key pair that `snow` fails to make, or that is not 32 bytes each,
    /// is an `InnerNoiseFailure`; otherwise it fails as building the
    /// example descriptor or re-signing it does.
    pub fn new(device_public_key: [u8; 32]) -> (r: ApiResult<Self>)
        ensures
            r matches Ok(f) ==> {
                &&& f.device_key() == device_public_key@
                &&& base64_32(f.served().service_static_public_key@) == Some(f.public_key())
                &&& f.served().trust_anchors.deep_view() == seq![example_anchor_view()]
            },
    {
        let mut descriptor = example_service_descriptor()?;
        let params = match parse_noise_params(NOISE_SUITE_V1) {
            Ok(params) => params,
            Err(_) => return Err(ApiError::InnerNoiseFailure),
        };
        let builder = builder_new(params);
        let (private_key, public_key) = match builder_generate_keypair(&builder) {
            Ok(pair) => pair,
            Err(_) => return Err(ApiError::InnerNoiseFailure),
        };
        let server_public_key = match key_32(public_key.as_slice()) {
            Some(key) => key,
            None => return Err(ApiError::InnerNoiseFailure),
        };
        let server_private_key = match key_32(private_key.as_slice()) {
            Some(key) => key,
            None => return Err(ApiError::InnerNoiseFailure),
        };
        descriptor.service_static_public_key = base64_encode(server_public_key.as_slice());
        descriptor.resign_with_example_key_for_testing()?;
        Ok(
            LocalServiceFixture {
                descriptor,
                server_private_key,
                server_public_key,
                device_public_key,
            },
        )
    }

    /// Points the served descriptor at loopback ports, re-signs it with the
    /// example root, validates it, and serves and returns it.
    ///
    /// Fails with `UnavailableCarrier` when the descriptor lacks the `QUIC`
    /// or the `WSS` target, and as re-signing or validation fails; on any
    /// failure the served descriptor is left as it was.
    pub fn descriptor_for_ports(&mut self, quic_port: u16, wss_port: u16) -> (r: ApiResult<
        ServiceDescriptor,
    >)
        ensures
            old(self).served().carriers.quic is None ==> r == Err::<ServiceDescriptor, ApiError>(
                ApiError::UnavailableCarrier(CarrierKind::Quic),
            ),
            old(self).served().carriers.quic is Some && old(self).served().carriers.wss is None
                ==> r == Err::<ServiceDescriptor, ApiError>(
                ApiError::UnavailableCarrier(CarrierKind::Wss),
            ),
            r is Err ==> final(self).served() == old(self).served(),
            r matches Ok(d) ==> {
                &&& descriptor_copy(d, final(self).served())
                &&& final(self).served().validation_error() is None
                &&& exists|mid: ServiceDescriptor|
                    pointed_at(old(self).served(), mid, quic_port, wss_port) && signed_by_example(
                        mid,
                        final(self).served(),
                    )
            },
            old(self).served().carriers.quic is Some && old(self).served().carriers.wss is Some
                ==> exists|mid: ServiceDescriptor|
                pointed_at(old(self).served(), mid, quic_port, wss_port) && (loopback_signable(mid)
                    ==> r is Ok),
            final(self).public_key() == old(self).public_key(),
            final(self).device_key() == old(self).device_key(),
    {
        let mut descriptor = self.descriptor.clone();
        point_at_loopback(&mut descriptor, quic_port, wss_port)?;
        let ghost mid = descriptor;
        assert(pointed_at(self.descriptor, mid, quic_port, wss_port));
        match descriptor.resign_with_example_key_for_testing() {
            Ok(()) => {},
            Err(e) => {
                assert(!loopback_signable(mid));
                return Err(e);
            },
        }
        proof {
            if loopback_signable(mid) {
                lemma_example_signature_keeps_validity(mid, descriptor);
            }
        }
        descriptor.validate()?;
        assert(pointed_at(self.descriptor, mid, quic_port, wss_port) && signed_by_example(
            mid,
            descriptor,
        ));
        let served = descriptor.clone();
        self.descriptor = descriptor;
        Ok(served)
    }

    /// A responder for one session of the served descriptor.
    pub fn responder(&self) -> (r: ApiResult<NoiseServiceResponder>)
        ensures
            self.served().prologue_error() matches Some(e) ==> r == Err::<
                NoiseServiceResponder,
                ApiError,
            >(e),
            r matches Ok(responder) ==> {
                &&& responder.wf()
                &&& descriptor_copy(responder.served(), self.served())
                &&& responder.device_key() == self.device_key()
                &&& responder.awaiting_handshake()
                &&& responder.auth() == (ResponderAuth {
                    handshake_hash: None,
                    account_context_hash: None,
                    pending_device_key_id: None,
                })
            },
    {
        NoiseServiceResponder::new(
            self.descriptor.clone(),
            self.server_private_key.as_slice(),
            self.device_public_key,
        )
    }

    /// The service's static public key.
    pub fn server_public_key(&self) -> (k: [u8; 32])
        ensures
            k@ == self.public_key(),
    {
        self.server_public_key
    }
}

/// Points both carrier targets of `descriptor` at the loopback ports.
///
/// Fails with `UnavailableCarrier`, leaving the descriptor as it was, when
/// it lacks the `QUIC` or the `WSS` target.
fn point_at_loopback(descriptor: &mut ServiceDescriptor, quic_port: u16, wss_port: u16) -> (r:
    ApiResult<()>)
    ensures
        old(descriptor).carriers.quic is None ==> r == Err::<(), ApiError>(
            ApiError::UnavailableCarrier(CarrierKind::Quic),
        ),
        old(descriptor).carriers.quic is Some && old(descriptor).carriers.wss is None ==> r == Err::<
            (),
            ApiError,
        >(ApiError::UnavailableCarrier(CarrierKind::Wss)),
        r is Ok <==> old(descriptor).carriers.quic is Some && old(descriptor).carriers.wss is Some,
        r is Err ==> *final(descriptor) == *old(descriptor),
        r is Ok ==> pointed_at(*old(descriptor), *final(descriptor), quic_port, wss_port),
{
    if descriptor.carriers.quic.is_none() {
        return Err(ApiError::UnavailableCarrier(CarrierKind::Quic));
    }
    if descriptor.carriers.wss.is_none() {
        return Err(ApiError::UnavailableCarrier(CarrierKind::Wss));
    }
    let port_text = format_i64(wss_port as i64);
    let head = concat_str("wss://127.0.0.1:", port_text.as_str());
    let url = concat_str(head.as_str(), "/tunnel");
    proof {
        reveal_strlit("wss://127.0.0.1:");
        reveal_strlit("/tunnel");
    }
    descriptor.carriers.quic = Some(
        QuicTarget {
            connect_host: "127.0.0.1".to_owned(),
            port: quic_port,
            alpn: QUIC_ALPN_V1.to_owned(),
            sni_override: None,
        },
    );
    descriptor.carriers.wss = Some(
        WssTarget { url, subprotocol: WSS_SUBPROTOCOL_V1.to_owned(), authority_override: None },
    );
    Ok(())
}

/// Exactly 32 bytes as an array.
fn key_32(bytes: &[u8]) -> (r: Option<[u8; 32]>)
    ensures
        r is Some <==> bytes@.len() == 32,
        r matches Some(k) ==> k@ == bytes@,
{
    if bytes.len() != 32 {
        return None;
    }
    let mut out = [0u8; 32];
    let mut i: usize = 0;
    while i < 32
        invariant
            i <= 32,
            bytes@.len() == 32,
            forall|j: int| 0 <= j < i ==> out@[j] == bytes@[j],
        decreases 32 - i,
    {
        out[i] = bytes[i];
        i = i + 1;
    }
    assert(out@ =~= bytes@);
    Some(out)
}

/// The v1 Noise parameters; a suite name `snow` does not parse is an
/// `InnerNoiseFailure`.
pub fn noise_params() -> (r: ApiResult<snow::params::NoiseParams>)
    ensures
        r is Ok <==> noise_params_parse(NOISE_SUITE_V1@),
        r is Err ==> r == Err::<snow::params::NoiseParams, ApiError>(ApiError::InnerNoiseFailure),
{
    match parse_noise_params(NOISE_SUITE_V1) {
        Ok(params) => Ok(params),
        Err(_) => Err(ApiError::InnerNoiseFailure),
    }
}

} // verus!

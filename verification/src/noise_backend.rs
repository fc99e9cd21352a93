//! The Noise engine this library drives: `snow`'s parameter parser, builder,
//! handshake state and transport state. Nothing here is proved; each item
//! states only what `snow`'s source shows of the call.

use crate::constants::MAX_RECORD_PAYLOAD_SIZE;
use vstd::prelude::*;

verus! {

#[verifier::external_type_specification]
#[verifier::external_body]
pub struct ExNoiseParams(snow::params::NoiseParams);

#[verifier::external_type_specification]
#[verifier::external_body]
pub struct ExNoiseBuilder<'builder>(snow::Builder<'builder>);

#[verifier::external_type_specification]
#[verifier::external_body]
pub struct ExHandshakeState(snow::HandshakeState);

#[verifier::external_type_specification]
#[verifier::external_body]
pub struct ExTransportState(snow::TransportState);

#[verifier::external_type_specification]
#[verifier::external_body]
pub struct ExNoiseError(snow::Error);

/// Authentication tag length of `snow`'s ciphers.
pub const NOISE_TAG_LEN: usize = 16;

/// Whether `NoiseParams::from_str` accepts the protocol name `name`.
pub uninterp spec fn noise_params_parse(name: Seq<char>) -> bool;

/// Calls `NoiseParams::from_str` (through `str::parse`). The contract names
/// whether the name parses, which depends on the name alone; the parameters
/// themselves are opaque.
#[verifier::external_body]
pub(crate) fn parse_noise_params(name: &str) -> (r: Result<snow::params::NoiseParams, snow::Error>)
    ensures
        r is Ok <==> noise_params_parse(name@),
{
    name.parse()
}

/// What a Noise builder records before it builds a handshake: the prologue,
/// the remote static public key and the local static private key, each once
/// it is given.
pub struct NoiseSetup {
    /// The prologue mixed into the handshake hash.
    pub prologue: Option<Seq<u8>>,
    /// The remote party's static public key, known in advance.
    pub remote_public_key: Option<Seq<u8>>,
    /// The local static private key.
    pub local_private_key: Option<Seq<u8>>,
}

/// A `snow::Builder` together with what it has recorded.
pub struct NoiseBuilder<'builder> {
    builder: snow::Builder<'builder>,
    setup: Ghost<NoiseSetup>,
}

impl<'builder> NoiseBuilder<'builder> {
    /// What the builder has recorded.
    pub closed spec fn setup(&self) -> NoiseSetup {
        self.setup@
    }
}

/// A `snow::HandshakeState` together with what its builder recorded when it
/// built it.
pub struct NoiseHandshake {
    state: snow::HandshakeState,
    setup: Ghost<NoiseSetup>,
}

impl NoiseHandshake {
    /// The prologue and keys the handshake was built with.
    pub closed spec fn setup(&self) -> NoiseSetup {
        self.setup@
    }
}

/// Calls `snow::Builder::new` with the default resolver. The new builder
/// has recorded nothing.
#[verifier::external_body]
pub(crate) fn builder_new<'builder>(params: snow::params::NoiseParams) -> (b: NoiseBuilder<'builder>)
    ensures
        b.setup() == (NoiseSetup { prologue: None, remote_public_key: None, local_private_key: None }),
{
    NoiseBuilder {
        builder: snow::Builder::new(params),
        setup: Ghost(NoiseSetup { prologue: None, remote_public_key: None, local_private_key: None }),
    }
}

/// Calls `Builder::prologue`, which records the prologue and fails exactly
/// when one was recorded before.
#[verifier::external_body]
pub(crate) fn builder_prologue<'builder>(builder: NoiseBuilder<'builder>, prologue: &'builder [u8]) -> (r:
    Result<NoiseBuilder<'builder>, snow::Error>)
    ensures
        r is Ok <==> builder.setup().prologue is None,
        r matches Ok(b) ==> b.setup() == (NoiseSetup { prologue: Some(prologue@), ..builder.setup() }),
{
    let NoiseBuilder { builder, setup } = builder;
    match builder.prologue(prologue) {
        Ok(b) => Ok(NoiseBuilder { builder: b, setup: Ghost(NoiseSetup { prologue: Some(prologue@), ..setup@ }) }),
        Err(e) => Err(e),
    }
}

/// Calls `Builder::remote_public_key`, which records the key and fails
/// exactly when one was recorded before.
#[verifier::external_body]
pub(crate) fn builder_remote_public_key<'builder>(
    builder: NoiseBuilder<'builder>,
    key: &'builder [u8; 32],
) -> (r: Result<NoiseBuilder<'builder>, snow::Error>)
    ensures
        r is Ok <==> builder.setup().remote_public_key is None,
        r matches Ok(b) ==> b.setup() == (NoiseSetup {
            remote_public_key: Some(key@),
            ..builder.setup()
        }),
{
    let NoiseBuilder { builder, setup } = builder;
    match builder.remote_public_key(key) {
        Ok(b) => Ok(NoiseBuilder { builder: b, setup: Ghost(NoiseSetup { remote_public_key: Some(key@), ..setup@ }) }),
        Err(e) => Err(e),
    }
}

/// Calls `Builder::local_private_key`, which records the key and fails
/// exactly when one was recorded before. Building later copies the key into
/// a buffer of the curve's private-key length and panics on a longer key;
/// `requires` keeps the key within the shortest such length, that of X25519.
#[verifier::external_body]
pub(crate) fn builder_local_private_key<'builder>(
    builder: NoiseBuilder<'builder>,
    key: &'builder [u8],
) -> (r: Result<NoiseBuilder<'builder>, snow::Error>)
    requires
        key@.len() <= 32,
    ensures
        r is Ok <==> builder.setup().local_private_key is None,
        r matches Ok(b) ==> b.setup() == (NoiseSetup {
            local_private_key: Some(key@),
            ..builder.setup()
        }),
{
    let NoiseBuilder { builder, setup } = builder;
    match builder.local_private_key(key) {
        Ok(b) => Ok(NoiseBuilder { builder: b, setup: Ghost(NoiseSetup { local_private_key: Some(key@), ..setup@ }) }),
        Err(e) => Err(e),
    }
}

/// Calls `Builder::build_responder`. A handshake it builds starts from what
/// the builder recorded; whether it builds depends on the resolver and on
/// which keys the pattern needs, and is not stated.
#[verifier::external_body]
pub(crate) fn builder_build_responder<'builder>(builder: NoiseBuilder<'builder>) -> (r: Result<
    NoiseHandshake,
    snow::Error,
>)
    ensures
        r matches Ok(h) ==> h.setup() == builder.setup(),
{
    let NoiseBuilder { builder, setup } = builder;
    match builder.build_responder() {
        Ok(state) => Ok(NoiseHandshake { state, setup: Ghost(setup@) }),
        Err(e) => Err(e),
    }
}

/// Calls `Builder::generate_keypair` and hands out the private and the
/// public key. Nothing is stated of them: they are random.
#[verifier::external_body]
pub(crate) fn builder_generate_keypair<'builder>(builder: &NoiseBuilder<'builder>) -> (r: Result<
    (Vec<u8>, Vec<u8>),
    snow::Error,
>) {
    builder.builder.generate_keypair().map(|pair| (pair.private, pair.public))
}

/// Calls `Builder::build_initiator`. A handshake it builds starts from what
/// the builder recorded; whether it builds depends on the resolver and on
/// which keys the pattern needs, and is not stated.
#[verifier::external_body]
pub(crate) fn builder_build_initiator<'builder>(builder: NoiseBuilder<'builder>) -> (r: Result<
    NoiseHandshake,
    snow::Error,
>)
    ensures
        r matches Ok(h) ==> h.setup() == builder.setup(),
{
    let NoiseBuilder { builder, setup } = builder;
    match builder.build_initiator() {
        Ok(state) => Ok(NoiseHandshake { state, setup: Ghost(setup@) }),
        Err(e) => Err(e),
    }
}

/// Calls `HandshakeState::write_message`. Its source writes only inside
/// `message` and returns how many bytes it wrote, so a success is at most
/// the buffer's length; the buffer keeps its length. Before encrypting a
/// static key it checks only that the bare key fits, and the tag written
/// after it would overrun a buffer with fewer than 16 bytes to spare, so
/// the buffer must hold a full record. What the bytes are depends on a
/// fresh ephemeral key and is not stated.
#[verifier::external_body]
pub(crate) fn handshake_write_message(
    handshake: &mut NoiseHandshake,
    payload: &[u8],
    message: &mut Vec<u8>,
) -> (r: Result<usize, snow::Error>)
    requires
        old(message)@.len() >= MAX_RECORD_PAYLOAD_SIZE,
    ensures
        final(handshake).setup() == old(handshake).setup(),
        final(message)@.len() == old(message)@.len(),
        r matches Ok(n) ==> n <= old(message)@.len(),
{
    handshake.state.write_message(payload, message.as_mut_slice())
}

/// Calls `HandshakeState::read_message`. Its source decrypts into `payload`
/// only after checking that the plaintext fits, and returns the plaintext
/// length, so a success is at most the buffer's length; the buffer keeps
/// its length. Whether the message authenticates is not stated.
#[verifier::external_body]
pub(crate) fn handshake_read_message(
    handshake: &mut NoiseHandshake,
    message: &[u8],
    payload: &mut Vec<u8>,
) -> (r: Result<usize, snow::Error>)
    ensures
        final(handshake).setup() == old(handshake).setup(),
        final(payload)@.len() == old(payload)@.len(),
        r matches Ok(n) ==> n <= old(payload)@.len(),
{
    handshake.state.read_message(message, payload.as_mut_slice())
}

/// Calls `HandshakeState::is_handshake_finished`. Nothing is stated of the
/// answer, which depends on the state's position in its pattern.
#[verifier::external_body]
pub(crate) fn handshake_is_finished(handshake: &NoiseHandshake) -> (b: bool) {
    handshake.state.is_handshake_finished()
}

/// Calls `HandshakeState::get_remote_static` and copies the key out.
/// Nothing is stated of it: it is what the peer sent or was given.
#[verifier::external_body]
pub(crate) fn handshake_remote_static(handshake: &NoiseHandshake) -> (k: Option<Vec<u8>>) {
    handshake.state.get_remote_static().map(|key| key.to_vec())
}

/// Calls `HandshakeState::get_handshake_hash` and copies the hash out. Its
/// source returns the first `hash_len()` bytes of the running hash, and the
/// default resolver's hashes are 32 bytes long (SHA-256, BLAKE2s) or 64
/// (SHA-512, BLAKE2b). Which of them the state was built with is not
/// visible here, and the bytes depend on the ephemeral keys.
#[verifier::external_body]
pub(crate) fn handshake_hash(handshake: &NoiseHandshake) -> (h: Vec<u8>)
    ensures
        h@.len() == 32 || h@.len() == 64,
{
    handshake.state.get_handshake_hash().to_vec()
}

/// Calls `HandshakeState::into_transport_mode`. Nothing is stated of the
/// result.
#[verifier::external_body]
pub(crate) fn handshake_into_transport_mode(handshake: NoiseHandshake) -> (r: Result<
    snow::TransportState,
    snow::Error,
>) {
    handshake.state.into_transport_mode()
}

/// Calls `TransportState::write_message`. Its source refuses a payload that
/// with its tag does not fit `message`, and otherwise writes the payload
/// and its tag inside `message`; the buffer keeps its length. Whether the
/// nonce is exhausted is not stated.
#[verifier::external_body]
pub(crate) fn transport_write_message(
    state: &mut snow::TransportState,
    payload: &[u8],
    message: &mut Vec<u8>,
) -> (r: Result<usize, snow::Error>)
    ensures
        final(message)@.len() == old(message)@.len(),
        payload@.len() + NOISE_TAG_LEN > old(message)@.len() ==> r is Err,
        r matches Ok(n) ==> n <= old(message)@.len(),
{
    state.write_message(payload, message.as_mut_slice())
}

/// Calls `TransportState::read_message`. Its source decrypts into `payload`
/// only after checking that the plaintext fits, and returns the plaintext
/// length; the buffer keeps its length. Whether the message authenticates
/// is not stated.
#[verifier::external_body]
pub(crate) fn transport_read_message(
    state: &mut snow::TransportState,
    message: &[u8],
    payload: &mut Vec<u8>,
) -> (r: Result<usize, snow::Error>)
    ensures
        final(payload)@.len() == old(payload)@.len(),
        r matches Ok(n) ==> n <= old(payload)@.len(),
{
    state.read_message(message, payload.as_mut_slice())
}

} // verus!

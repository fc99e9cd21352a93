//! Transport-agnostic core of Secure Tunnel v1: canonical wire encodings,
//! descriptor validation and authorization, transport planning and the
//! transport-selection state machine, with the plain data types the language
//! bindings exchange.

pub mod account_session;
pub mod app_message;
pub mod bindings;
pub mod cli;
pub mod client_config;
pub mod codec;
pub mod compat;
pub mod connect_proxy;
pub mod constants;
pub mod crypto;
pub mod descriptor;
pub mod descriptor_auth;
pub mod descriptor_examples;
pub mod device_session;
pub mod error;
pub mod go_config;
pub mod harness;
pub mod inner_context;
pub mod noise;
pub mod noise_backend;
pub mod sdk_types;
pub mod selector;
pub mod service_fixture;
pub mod service_key;
pub mod service_responder;
pub mod session;
pub mod text;
pub mod timestamp;
pub mod transport;
pub mod trust;

pub use account_session::{AccountAuthMode, AccountAuthRequest, AccountAuthResult, AccountFreshness};
pub use app_message::{
    APP_MESSAGE_VERSION_V1, ApplicationMessage, FAMILY_ACCOUNT, FAMILY_DEVICE_AUTH,
    FAMILY_DEVICE_ENROLLMENT, TYPE_ACCOUNT_AUTH_REQUEST, TYPE_ACCOUNT_AUTH_RESULT,
    TYPE_DEVICE_AUTH_CHALLENGE, TYPE_DEVICE_AUTH_FINISH, TYPE_DEVICE_AUTH_RESULT,
    TYPE_DEVICE_AUTH_START, TYPE_DEVICE_ENROLL_CHALLENGE, TYPE_DEVICE_ENROLL_FINISH,
    TYPE_DEVICE_ENROLL_RESULT, TYPE_DEVICE_ENROLL_START,
};
pub use constants::{
    MAX_APPLICATION_PLAINTEXT_SIZE, MAX_RECORD_PAYLOAD_SIZE, NOISE_SUITE_V1, PROTOCOL_ID_V1,
    QUIC_ALPN_V1, WSS_SUBPROTOCOL_V1, protocol_id_v1,
};
pub use descriptor::{
    CarrierSet, DescriptorSignature, QuicTarget, SelectionPolicy, ServiceDescriptor, TrustAnchor,
    WssTarget,
};
pub use descriptor_examples::{example_descriptor_trust_anchors, example_service_descriptor};
pub use device_session::{
    DEVICE_PROOF_PURPOSE_KNOWN_DEVICE_REAUTH, DEVICE_PROOF_PURPOSE_NEW_DEVICE_ENROLLMENT,
    DeviceAuthStart, DeviceChallenge, DeviceEnrollmentStart, DeviceProofFinish, DeviceProofInput,
    DeviceProofPurpose, DeviceResult, DeviceState, verify_device_proof_signature,
};
pub use error::{ApiError, ApiResult};
pub use inner_context::{
    DEVICE_PROOF_DOMAIN_V1, DescriptorHash, Hash32, INNER_PROTOCOL_VERSION_V1, InnerChannelContext,
    NoisePublicKey, PRODUCT_LABEL_V1, PROLOGUE_DOMAIN_V1,
};
pub use noise::{HandshakeInputs, SnowNk1ClientEvaluator};
pub use selector::{
    SelectionSuccess, SelectorRun, SelectorStep, TransportAttemptOutcome, TransportAttemptTrace,
    TransportSelectionError, TransportSelector,
};
pub use service_key::obfuscated_service_static_public_key;
pub use session::{
    CacheDisposition, CloseDirective, SecureReadyArtifacts, SecureReadyReport, SessionPhase,
};
pub use transport::{
    CandidateSource, CarrierKind, FallbackReason, TransportCacheSnapshot, TransportCandidate,
    TransportTarget,
};

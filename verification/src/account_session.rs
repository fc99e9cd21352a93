//! Account authentication messages exchanged after `Secure Ready`.

use vstd::prelude::*;
use vstd::utf8::{decode_utf8, encode_utf8, valid_utf8};

use crate::app_message::{
    encode_message, lemma_fits_fields_short, lemma_message_encode_decode, lemma_parse_message_canonical, map_codec_error, message_fits, parse_message,
    size_error, string_field, take_fields, ApplicationMessage, FAMILY_ACCOUNT,
    TYPE_ACCOUNT_AUTH_REQUEST, TYPE_ACCOUNT_AUTH_RESULT,
};
use crate::codec::{ensure_empty, take_fixed, take_u8};
use crate::constants::MAX_APPLICATION_PLAINTEXT_SIZE;
use crate::error::{ApiError, ApiResult};
use crate::inner_context::Hash32;

verus! {

/// Account session freshness returned by the service.
#[derive(Debug, Clone, Copy, PartialEq, Eq)]
pub enum AccountFreshness {
    /// The account was freshly authenticated with current credentials.
    Fresh,
    /// The account session was resumed from an opaque token.
    Resumed,
}

/// Wire code of a freshness.
pub open spec fn freshness_code(f: AccountFreshness) -> u8 {
    match f {
        AccountFreshness::Fresh => 1,
        AccountFreshness::Resumed => 2,
    }
}

/// Freshness named by a wire code, if any.
pub open spec fn freshness_from_code(code: u8) -> Option<AccountFreshness> {
    if code == 1 {
        Some(AccountFreshness::Fresh)
    } else if code == 2 {
        Some(AccountFreshness::Resumed)
    } else {
        None
    }
}

impl AccountFreshness {
    /// Returns true when this state can enroll new devices by default.
    pub fn permits_device_enrollment(self) -> (b: bool)
        ensures
            b <==> self == AccountFreshness::Fresh,
    {
        match self {
            AccountFreshness::Fresh => true,
            AccountFreshness::Resumed => false,
        }
    }

    pub(crate) fn to_wire(self) -> (code: u8)
        ensures
            code == freshness_code(self),
    {
        match self {
            AccountFreshness::Fresh => 1,
            AccountFreshness::Resumed => 2,
        }
    }

    pub(crate) fn from_wire(value: u8) -> (r: ApiResult<Self>)
        ensures
            r is Ok <==> freshness_from_code(value) is Some,
            r matches Ok(f) ==> freshness_from_code(value) == Some(f),
            r is Err ==> r == Err::<Self, ApiError>(ApiError::PostHandshakeAuthFailure),
    {
        match value {
            1 => Ok(AccountFreshness::Fresh),
            2 => Ok(AccountFreshness::Resumed),
            _ => Err(ApiError::PostHandshakeAuthFailure),
        }
    }
}

/// Account authentication mode requested by the client.
#[derive(Debug, Clone, Copy, PartialEq, Eq)]
pub enum AccountAuthMode {
    /// Authenticate with fresh account credentials.
    Fresh,
    /// Resume a previously established account session.
    Resume,
}

/// Wire code of a mode.
pub open spec fn mode_code(m: AccountAuthMode) -> u8 {
    match m {
        AccountAuthMode::Fresh => 1,
        AccountAuthMode::Resume => 2,
    }
}

/// Mode named by a wire code, if any.
pub open spec fn mode_from_code(code: u8) -> Option<AccountAuthMode> {
    if code == 1 {
        Some(AccountAuthMode::Fresh)
    } else if code == 2 {
        Some(AccountAuthMode::Resume)
    } else {
        None
    }
}

impl AccountAuthMode {
    pub(crate) fn to_wire(self) -> (code: u8)
        ensures
            code == mode_code(self),
    {
        match self {
            AccountAuthMode::Fresh => 1,
            AccountAuthMode::Resume => 2,
        }
    }

    pub(crate) fn from_wire(value: u8) -> (r: ApiResult<Self>)
        ensures
            r is Ok <==> mode_from_code(value) is Some,
            r matches Ok(m) ==> mode_from_code(value) == Some(m),
            r is Err ==> r == Err::<Self, ApiError>(ApiError::PostHandshakeAuthFailure),
    {
        match value {
            1 => Ok(AccountAuthMode::Fresh),
            2 => Ok(AccountAuthMode::Resume),
            _ => Err(ApiError::PostHandshakeAuthFailure),
        }
    }
}

/// Account authentication request carried after `Secure Ready`.
#[derive(Debug, Clone, PartialEq, Eq)]
pub struct AccountAuthRequest {
    /// Product account identifier.
    pub account_id: String,
    /// Opaque credential or resume payload.
    pub credential_payload: Vec<u8>,
    /// Requested authentication mode.
    pub mode: AccountAuthMode,
}

/// Abstract content of an account request.
pub struct AccountAuthRequestView {
    pub account_id: Seq<char>,
    pub credential_payload: Seq<u8>,
    pub mode: AccountAuthMode,
}

impl View for AccountAuthRequest {
    type V = AccountAuthRequestView;

    open spec fn view(&self) -> AccountAuthRequestView {
        AccountAuthRequestView {
            account_id: self.account_id@,
            credential_payload: self.credential_payload@,
            mode: self.mode,
        }
    }
}

/// Message fields of an account request.
pub open spec fn request_fields(r: AccountAuthRequestView) -> Seq<Seq<u8>> {
    seq![encode_utf8(r.account_id), seq![mode_code(r.mode)], r.credential_payload]
}

/// The account request that wire bytes denote, if any.
pub open spec fn decode_request_spec(record: Seq<u8>) -> Option<AccountAuthRequestView> {
    match parse_message(record) {
        Some((family, message_type, fs)) => if family == FAMILY_ACCOUNT && message_type
            == TYPE_ACCOUNT_AUTH_REQUEST && fs.len() == 3 && fs[1].len() == 1 && mode_from_code(
            fs[1][0],
        ) is Some && valid_utf8(fs[0]) {
            Some(
                AccountAuthRequestView {
                    account_id: decode_utf8(fs[0]),
                    credential_payload: fs[2],
                    mode: mode_from_code(fs[1][0])->0,
                },
            )
        } else {
            None
        },
        None => None,
    }
}

impl AccountAuthRequest {
    /// Encodes this request as one application message.
    ///
    /// Fails with `RecordTooLarge` exactly when the fields exceed v1 limits.
    pub fn encode(&self) -> (r: ApiResult<Vec<u8>>)
        ensures
            r is Ok <==> message_fits(request_fields(self@)),
            r matches Ok(out) ==> out@ == encode_message(
                FAMILY_ACCOUNT,
                TYPE_ACCOUNT_AUTH_REQUEST,
                request_fields(self@),
            ),
            r is Err ==> r == Err::<Vec<u8>, ApiError>(size_error(request_fields(self@))),
    {
        let mut mode: Vec<u8> = Vec::new();
        mode.push(self.mode.to_wire());
        let id = vstd::slice::slice_to_vec(self.account_id.as_str().as_bytes());
        let credential = self.credential_payload.clone();
        let mut fields: Vec<Vec<u8>> = Vec::new();
        fields.push(id);
        fields.push(mode);
        fields.push(credential);
        assert(id@ == encode_utf8(self.account_id@));
        assert(mode@ =~= seq![mode_code(self.mode)]);
        assert(credential@ =~= self.credential_payload@);
        assert(fields.deep_view()[0] =~= id@);
        assert(fields.deep_view()[1] =~= mode@);
        assert(fields.deep_view()[2] =~= credential@);
        assert(fields.deep_view() =~= request_fields(self@));
        ApplicationMessage::new(FAMILY_ACCOUNT, TYPE_ACCOUNT_AUTH_REQUEST, fields)?.encode()
    }

    /// Decodes an account auth request.
    ///
    /// Fails with `RecordTooLarge` for records over the plaintext limit and
    /// with `PostHandshakeAuthFailure` for any other malformed record.
    pub fn decode(record: &[u8]) -> (r: ApiResult<Self>)
        ensures
            record@.len() > MAX_APPLICATION_PLAINTEXT_SIZE ==> r == Err::<Self, ApiError>(
                ApiError::RecordTooLarge {
                    actual: record@.len() as usize,
                    max: MAX_APPLICATION_PLAINTEXT_SIZE,
                },
            ),
            record@.len() <= MAX_APPLICATION_PLAINTEXT_SIZE ==> (r is Ok <==> decode_request_spec(
                record@,
            ) is Some),
            r matches Ok(v) ==> decode_request_spec(record@) == Some(v@),
            record@.len() <= MAX_APPLICATION_PLAINTEXT_SIZE && r is Err ==> r == Err::<
                Self,
                ApiError,
            >(ApiError::PostHandshakeAuthFailure),
    {
        let message = ApplicationMessage::decode(record)?;
        message.expect_kind(FAMILY_ACCOUNT, TYPE_ACCOUNT_AUTH_REQUEST)?;
        let fields = take_fields::<3>(message.fields)?;
        let ghost fs = fields.deep_view();
        assert(fs[1] =~= fields@[1]@);
        assert(fs[0] =~= fields@[0]@);
        assert(fs[2] =~= fields@[2]@);
        let mut mode_input = fields[1].as_slice();
        let code = match take_u8(&mut mode_input) {
            Ok(code) => code,
            Err(error) => {
                return Err(map_codec_error(error));
            },
        };
        let mode = AccountAuthMode::from_wire(code)?;
        match ensure_empty(mode_input) {
            Ok(()) => {},
            Err(error) => {
                return Err(map_codec_error(error));
            },
        }
        proof {
            lemma_parse_message_canonical(record@);
            lemma_fits_fields_short(fs);
        }
        let account_id = string_field(fields[0].as_slice())?;
        let credential_payload = fields[2].clone();
        Ok(Self { account_id, credential_payload, mode })
    }
}


/// Law: decoding an encoded account request gives back the same request.
pub proof fn lemma_account_request_round_trip(v: AccountAuthRequestView)
    requires
        message_fits(request_fields(v)),
    ensures
        decode_request_spec(
            encode_message(FAMILY_ACCOUNT, TYPE_ACCOUNT_AUTH_REQUEST, request_fields(v)),
        ) == Some(v),
{
    let fs = request_fields(v);
    lemma_message_encode_decode(FAMILY_ACCOUNT, TYPE_ACCOUNT_AUTH_REQUEST, fs);
    vstd::utf8::encode_utf8_valid_utf8(v.account_id);
    vstd::utf8::encode_utf8_decode_utf8(v.account_id);
    assert(fs[1][0] == mode_code(v.mode));
}

/// Account authentication result returned by the service.
#[derive(Debug, Clone, PartialEq, Eq)]
pub struct AccountAuthResult {
    /// Product account identifier pinned by the service.
    pub account_id: String,
    /// Server-side account session context identifier.
    pub session_context_id: String,
    /// Stable hash bound into device proof bytes.
    pub account_context_hash: Hash32,
    /// Established account session freshness.
    pub freshness: AccountFreshness,
}

/// Abstract content of an account result.
pub struct AccountAuthResultView {
    pub account_id: Seq<char>,
    pub session_context_id: Seq<char>,
    pub account_context_hash: Seq<u8>,
    pub freshness: AccountFreshness,
}

impl View for AccountAuthResult {
    type V = AccountAuthResultView;

    open spec fn view(&self) -> AccountAuthResultView {
        AccountAuthResultView {
            account_id: self.account_id@,
            session_context_id: self.session_context_id@,
            account_context_hash: self.account_context_hash@,
            freshness: self.freshness,
        }
    }
}

/// Message fields of an account result.
pub open spec fn result_fields(r: AccountAuthResultView) -> Seq<Seq<u8>> {
    seq![
        encode_utf8(r.account_id),
        encode_utf8(r.session_context_id),
        r.account_context_hash,
        seq![freshness_code(r.freshness)],
    ]
}

/// The account result that wire bytes denote, if any.
pub open spec fn decode_result_spec(record: Seq<u8>) -> Option<AccountAuthResultView> {
    match parse_message(record) {
        Some((family, message_type, fs)) => if family == FAMILY_ACCOUNT && message_type
            == TYPE_ACCOUNT_AUTH_RESULT && fs.len() == 4 && fs[2].len() == 32 && fs[3].len() == 1
            && freshness_from_code(fs[3][0]) is Some && valid_utf8(fs[0]) && valid_utf8(fs[1]) {
            Some(
                AccountAuthResultView {
                    account_id: decode_utf8(fs[0]),
                    session_context_id: decode_utf8(fs[1]),
                    account_context_hash: fs[2],
                    freshness: freshness_from_code(fs[3][0])->0,
                },
            )
        } else {
            None
        },
        None => None,
    }
}

impl AccountAuthResult {
    /// Encodes this result as one application message.
    ///
    /// Fails with `RecordTooLarge` exactly when the fields exceed v1 limits.
    pub fn encode(&self) -> (r: ApiResult<Vec<u8>>)
        ensures
            r is Ok <==> message_fits(result_fields(self@)),
            r matches Ok(out) ==> out@ == encode_message(
                FAMILY_ACCOUNT,
                TYPE_ACCOUNT_AUTH_RESULT,
                result_fields(self@),
            ),
            r is Err ==> r == Err::<Vec<u8>, ApiError>(size_error(result_fields(self@))),
    {
        let id = vstd::slice::slice_to_vec(self.account_id.as_str().as_bytes());
        let context = vstd::slice::slice_to_vec(self.session_context_id.as_str().as_bytes());
        let hash = vstd::slice::slice_to_vec(self.account_context_hash.as_slice());
        let mut freshness: Vec<u8> = Vec::new();
        freshness.push(self.freshness.to_wire());
        let mut fields: Vec<Vec<u8>> = Vec::new();
        fields.push(id);
        fields.push(context);
        fields.push(hash);
        fields.push(freshness);
        assert(fields.deep_view()[0] =~= id@);
        assert(fields.deep_view()[1] =~= context@);
        assert(fields.deep_view()[2] =~= hash@);
        assert(fields.deep_view()[3] =~= freshness@);
        assert(fields.deep_view() =~= result_fields(self@));
        ApplicationMessage::new(FAMILY_ACCOUNT, TYPE_ACCOUNT_AUTH_RESULT, fields)?.encode()
    }

    /// Decodes an account auth result.
    ///
    /// Fails with `RecordTooLarge` for records over the plaintext limit and
    /// with `PostHandshakeAuthFailure` for any other malformed record.
    pub fn decode(record: &[u8]) -> (r: ApiResult<Self>)
        ensures
            record@.len() > MAX_APPLICATION_PLAINTEXT_SIZE ==> r == Err::<Self, ApiError>(
                ApiError::RecordTooLarge {
                    actual: record@.len() as usize,
                    max: MAX_APPLICATION_PLAINTEXT_SIZE,
                },
            ),
            record@.len() <= MAX_APPLICATION_PLAINTEXT_SIZE ==> (r is Ok <==> decode_result_spec(
                record@,
            ) is Some),
            r matches Ok(v) ==> decode_result_spec(record@) == Some(v@),
            record@.len() <= MAX_APPLICATION_PLAINTEXT_SIZE && r is Err ==> r == Err::<
                Self,
                ApiError,
            >(ApiError::PostHandshakeAuthFailure),
    {
        let message = ApplicationMessage::decode(record)?;
        message.expect_kind(FAMILY_ACCOUNT, TYPE_ACCOUNT_AUTH_RESULT)?;
        let fields = take_fields::<4>(message.fields)?;
        let ghost fs = fields.deep_view();
        assert(fs[0] =~= fields@[0]@);
        assert(fs[1] =~= fields@[1]@);
        assert(fs[2] =~= fields@[2]@);
        assert(fs[3] =~= fields@[3]@);
        let mut hash_input = fields[2].as_slice();
        let account_context_hash = match take_fixed::<32>(&mut hash_input) {
            Ok(hash) => hash,
            Err(error) => {
                return Err(map_codec_error(error));
            },
        };
        match ensure_empty(hash_input) {
            Ok(()) => {},
            Err(error) => {
                return Err(map_codec_error(error));
            },
        }
        assert(account_context_hash@ =~= fs[2]);
        let mut freshness_input = fields[3].as_slice();
        let code = match take_u8(&mut freshness_input) {
            Ok(code) => code,
            Err(error) => {
                return Err(map_codec_error(error));
            },
        };
        let freshness = AccountFreshness::from_wire(code)?;
        match ensure_empty(freshness_input) {
            Ok(()) => {},
            Err(error) => {
                return Err(map_codec_error(error));
            },
        }
        proof {
            lemma_parse_message_canonical(record@);
            lemma_fits_fields_short(fs);
        }
        let account_id = string_field(fields[0].as_slice())?;
        let session_context_id = string_field(fields[1].as_slice())?;
        Ok(Self { account_id, session_context_id, account_context_hash, freshness })
    }
}

/// Law: decoding an encoded account result gives back the same result.
pub proof fn lemma_account_result_round_trip(v: AccountAuthResultView)
    requires
        message_fits(result_fields(v)),
        v.account_context_hash.len() == 32,
    ensures
        decode_result_spec(
            encode_message(FAMILY_ACCOUNT, TYPE_ACCOUNT_AUTH_RESULT, result_fields(v)),
        ) == Some(v),
{
    let fs = result_fields(v);
    lemma_message_encode_decode(FAMILY_ACCOUNT, TYPE_ACCOUNT_AUTH_RESULT, fs);
    vstd::utf8::encode_utf8_valid_utf8(v.account_id);
    vstd::utf8::encode_utf8_decode_utf8(v.account_id);
    vstd::utf8::encode_utf8_valid_utf8(v.session_context_id);
    vstd::utf8::encode_utf8_decode_utf8(v.session_context_id);
    assert(fs[3][0] == freshness_code(v.freshness));
}

/// On the wire an account result's freshness is one byte: 1 for a fresh
/// authentication, the state that permits device enrollment, and 2 for a
/// resumed session. Encoding writes those bytes, and a record decodes to a
/// fresh result exactly when its freshness byte is 1, to a resumed one
/// exactly when it is 2.
pub proof fn lemma_account_freshness_wire(v: AccountAuthResultView, record: Seq<u8>)
    ensures
        v.freshness == AccountFreshness::Fresh ==> result_fields(v)[3] == seq![1u8],
        v.freshness == AccountFreshness::Resumed ==> result_fields(v)[3] == seq![2u8],
        decode_result_spec(record) matches Some(r) ==> {
            let (_, _, fields) = parse_message(record)->0;
            let byte = fields[3][0];
            &&& (r.freshness == AccountFreshness::Fresh <==> byte == 1)
            &&& (r.freshness == AccountFreshness::Resumed <==> byte == 2)
        },
{
}

} // verus!

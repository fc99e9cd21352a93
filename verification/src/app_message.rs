//! The v1 encrypted application-message envelope: a version byte, a family,
//! a family-local type, a field count and that many length-prefixed fields.

use vstd::prelude::*;

use crate::codec::{
    ensure_empty, len_prefixed, put_len_prefixed_bytes, put_len_prefixed_str,
    str_from_utf8, take_len_prefixed_bytes, take_len_prefixed_string, take_u8, u16_be,
    u16_from_be, CodecError,
};
use vstd::utf8::{decode_utf8, valid_utf8};
use crate::constants::MAX_APPLICATION_PLAINTEXT_SIZE;
use crate::error::{ApiError, ApiResult};

verus! {

/// v1 encrypted application-message envelope version.
pub const APP_MESSAGE_VERSION_V1: u8 = 1;

/// Account-session message family.
pub const FAMILY_ACCOUNT: u8 = 1;
/// Known-device authentication message family.
pub const FAMILY_DEVICE_AUTH: u8 = 2;
/// New-device enrollment message family.
pub const FAMILY_DEVICE_ENROLLMENT: u8 = 3;

/// Account login or resume request message type.
pub const TYPE_ACCOUNT_AUTH_REQUEST: u8 = 1;
/// Account login or resume result message type.
pub const TYPE_ACCOUNT_AUTH_RESULT: u8 = 2;
/// Device authentication start message type.
pub const TYPE_DEVICE_AUTH_START: u8 = 1;
/// Device authentication challenge message type.
pub const TYPE_DEVICE_AUTH_CHALLENGE: u8 = 2;
/// Device authentication finish message type.
pub const TYPE_DEVICE_AUTH_FINISH: u8 = 3;
/// Device authentication result message type.
pub const TYPE_DEVICE_AUTH_RESULT: u8 = 4;
/// Device enrollment start message type.
pub const TYPE_DEVICE_ENROLL_START: u8 = 1;
/// Device enrollment challenge message type.
pub const TYPE_DEVICE_ENROLL_CHALLENGE: u8 = 2;
/// Device enrollment finish message type.
pub const TYPE_DEVICE_ENROLL_FINISH: u8 = 3;
/// Device enrollment result message type.
pub const TYPE_DEVICE_ENROLL_RESULT: u8 = 4;

/// Decoded v1 encrypted application-message envelope.
#[derive(Debug, Clone, PartialEq, Eq)]
pub struct ApplicationMessage {
    /// Message family.
    pub family: u8,
    /// Family-local message type.
    pub message_type: u8,
    /// Length-prefixed message fields.
    pub fields: Vec<Vec<u8>>,
}

/// Concatenation of the length-prefixed encodings of `fields`.
pub open spec fn encode_fields(fields: Seq<Seq<u8>>) -> Seq<u8>
    decreases fields.len(),
{
    if fields.len() == 0 {
        Seq::empty()
    } else {
        len_prefixed(fields[0]) + encode_fields(fields.drop_first())
    }
}

/// Bytes taken by the length-prefixed fields (two prefix bytes each).
pub open spec fn fields_size(fields: Seq<Seq<u8>>) -> int
    decreases fields.len(),
{
    if fields.len() == 0 {
        0
    } else {
        2 + fields[0].len() + fields_size(fields.drop_first())
    }
}

/// Size of the whole envelope holding `fields`.
pub open spec fn message_size(fields: Seq<Seq<u8>>) -> int {
    4 + fields_size(fields)
}

/// Whether `fields` fit the v1 envelope limits.
pub open spec fn message_fits(fields: Seq<Seq<u8>>) -> bool {
    fields.len() <= 255 && message_size(fields) <= MAX_APPLICATION_PLAINTEXT_SIZE
}

/// A size clamped to `usize::MAX`, as a saturating sum reports it.
pub open spec fn saturate(size: int) -> usize {
    if size > usize::MAX {
        usize::MAX
    } else {
        size as usize
    }
}

/// The error reported for fields that do not fit the envelope.
pub open spec fn size_error(fields: Seq<Seq<u8>>) -> ApiError {
    if fields.len() > 255 {
        ApiError::RecordTooLarge { actual: fields.len() as usize, max: 255 }
    } else {
        ApiError::RecordTooLarge {
            actual: saturate(message_size(fields)),
            max: MAX_APPLICATION_PLAINTEXT_SIZE,
        }
    }
}

/// The v1 wire bytes of a message.
pub open spec fn encode_message(family: u8, message_type: u8, fields: Seq<Seq<u8>>) -> Seq<u8> {
    seq![APP_MESSAGE_VERSION_V1, family, message_type, fields.len() as u8] + encode_fields(fields)
}

/// Reads `count` length-prefixed fields from the front of `input`, giving the
/// fields and what is left, or `None` when the input runs out first.
pub open spec fn parse_fields(input: Seq<u8>, count: nat) -> Option<(Seq<Seq<u8>>, Seq<u8>)>
    decreases count,
{
    if count == 0 {
        Some((Seq::empty(), input))
    } else if input.len() < 2 || input.len() - 2 < u16_from_be(input) {
        None
    } else {
        let n = u16_from_be(input) as int;
        match parse_fields(input.skip(2 + n), (count - 1) as nat) {
            Some((fs, rest)) => Some((seq![input.subrange(2, 2 + n)] + fs, rest)),
            None => None,
        }
    }
}

/// The message that v1 wire bytes denote, if any.
pub open spec fn parse_message(record: Seq<u8>) -> Option<(u8, u8, Seq<Seq<u8>>)> {
    if record.len() > MAX_APPLICATION_PLAINTEXT_SIZE || record.len() < 4 || record[0]
        != APP_MESSAGE_VERSION_V1 {
        None
    } else {
        match parse_fields(record.skip(4), record[3] as nat) {
            Some((fs, rest)) => if rest.len() == 0 {
                Some((record[1], record[2], fs))
            } else {
                None
            },
            None => None,
        }
    }
}

/// Every field fits a 16-bit length prefix.
pub open spec fn fields_short(fields: Seq<Seq<u8>>) -> bool {
    forall|i: int| 0 <= i < fields.len() ==> #[trigger] fields[i].len() <= u16::MAX
}

impl ApplicationMessage {
    /// The fields as byte sequences.
    pub open spec fn field_seqs(&self) -> Seq<Seq<u8>> {
        self.fields.deep_view()
    }

    /// Creates an application message from field bytes.
    ///
    /// Fails with `RecordTooLarge` exactly when the fields do not fit v1 limits.
    pub fn new(family: u8, message_type: u8, fields: Vec<Vec<u8>>) -> (r: ApiResult<Self>)
        ensures
            r is Ok <==> message_fits(fields.deep_view()),
            r matches Ok(m) ==> m.family == family && m.message_type == message_type
                && m.field_seqs() == fields.deep_view(),
            r is Err ==> r == Err::<Self, ApiError>(size_error(fields.deep_view())),
    {
        let message = Self { family, message_type, fields };
        ensure_message_size(&message)?;
        Ok(message)
    }

    /// Encodes this message into v1 wire bytes.
    ///
    /// Fails with `RecordTooLarge` exactly when the fields do not fit v1 limits.
    pub fn encode(&self) -> (r: ApiResult<Vec<u8>>)
        ensures
            r is Ok <==> message_fits(self.field_seqs()),
            r matches Ok(out) ==> out@ == encode_message(
                self.family,
                self.message_type,
                self.field_seqs(),
            ),
            r is Err ==> r == Err::<Vec<u8>, ApiError>(size_error(self.field_seqs())),
    {
        ensure_message_size(self)?;
        let ghost fs = self.field_seqs();
        proof {
            lemma_fits_fields_short(fs);
        }
        let field_count = self.fields.len() as u8;
        let mut out: Vec<u8> = Vec::new();
        out.push(APP_MESSAGE_VERSION_V1);
        out.push(self.family);
        out.push(self.message_type);
        out.push(field_count);
        let mut i: usize = 0;
        while i < self.fields.len()
            invariant
                fs == self.field_seqs(),
                fs.len() == self.fields@.len(),
                fields_short(fs),
                message_fits(fs),
                i <= fs.len(),
                out@ == seq![APP_MESSAGE_VERSION_V1, self.family, self.message_type, field_count]
                    + encode_fields(fs.take(i as int)),
            decreases fs.len() - i,
        {
            let ghost before = out@;
            assert(fs[i as int] == self.fields@[i as int]@);
            let put = put_len_prefixed_bytes(&mut out, self.fields[i].as_slice());
            assert(put is Ok);
            proof {
                lemma_encode_fields_push(fs.take(i as int), fs[i as int]);
                assert(fs.take(i as int).push(fs[i as int]) =~= fs.take(i + 1));
            }
            i = i + 1;
        }
        assert(fs.take(fs.len() as int) =~= fs);
        Ok(out)
    }

    /// Decodes v1 wire bytes.
    ///
    /// Records over the plaintext limit fail with `RecordTooLarge`; records
    /// that no v1 message encodes to fail with `PostHandshakeAuthFailure`.
    pub fn decode(record: &[u8]) -> (r: ApiResult<Self>)
        ensures
            record@.len() > MAX_APPLICATION_PLAINTEXT_SIZE ==> r == Err::<Self, ApiError>(
                ApiError::RecordTooLarge {
                    actual: record@.len() as usize,
                    max: MAX_APPLICATION_PLAINTEXT_SIZE,
                },
            ),
            record@.len() <= MAX_APPLICATION_PLAINTEXT_SIZE ==> (r is Ok <==> parse_message(
                record@,
            ) is Some),
            r matches Ok(m) ==> parse_message(record@) == Some(
                (m.family, m.message_type, m.field_seqs()),
            ),
            record@.len() <= MAX_APPLICATION_PLAINTEXT_SIZE && r is Err ==> r == Err::<
                Self,
                ApiError,
            >(ApiError::PostHandshakeAuthFailure),
    {
        ensure_payload_len(record.len())?;
        if record.len() < 4 {
            return Err(ApiError::PostHandshakeAuthFailure);
        }
        let mut input = record;
        let version = take_byte(&mut input)?;
        if version != APP_MESSAGE_VERSION_V1 {
            return Err(ApiError::PostHandshakeAuthFailure);
        }
        let family = take_byte(&mut input)?;
        let message_type = take_byte(&mut input)?;
        let field_count = take_byte(&mut input)?;
        let ghost body = record@.skip(4);
        assert(input@ =~= body);
        let mut fields: Vec<Vec<u8>> = Vec::new();
        let mut i: u8 = 0;
        while i < field_count
            invariant
                i <= field_count,
                4 <= record@.len() <= MAX_APPLICATION_PLAINTEXT_SIZE,
                body == record@.skip(4),
                field_count == record@[3],
                parse_fields(body, field_count as nat) == prepend_fields(
                    fields.deep_view(),
                    parse_fields(input@, (field_count - i) as nat),
                ),
            decreases field_count - i,
        {
            let ghost before = input@;
            let ghost pre = fields.deep_view();
            let ghost old_fields = fields@;
            let taken = take_len_prefixed_bytes(&mut input);
            match taken {
                Ok(field) => {
                    proof {
                        let n = u16_from_be(before) as int;
                        assert(field@ =~= before.subrange(2, 2 + n));
                        lemma_prepend_fields_step(
                            pre,
                            field@,
                            parse_fields(input@, (field_count - i - 1) as nat),
                        );
                    }
                    fields.push(field);
                    proof {
                        assert forall|k: int| 0 <= k < fields@.len() implies #[trigger] fields.deep_view()[k]
                            == pre.push(field@)[k] by {
                            if k < old_fields.len() {
                                assert(fields@[k] == old_fields[k]);
                            }
                        }
                        assert(fields.deep_view() =~= pre.push(field@));
                    }
                },
                Err(error) => {
                    return Err(map_codec_error(error));
                },
            }
            i = i + 1;
        }
        if ensure_empty(input).is_err() {
            return Err(ApiError::PostHandshakeAuthFailure);
        }
        proof {
            assert(fields.deep_view() + Seq::<Seq<u8>>::empty() =~= fields.deep_view());
            lemma_parse_message_canonical(record@);
        }
        Self::new(family, message_type, fields)
    }

    /// Verifies the family and type for a decoded message.
    ///
    /// Fails with `PostHandshakeAuthFailure` exactly when either differs.
    pub fn expect_kind(&self, family: u8, message_type: u8) -> (r: ApiResult<()>)
        ensures
            r is Ok <==> self.family == family && self.message_type == message_type,
            r is Err ==> r == Err::<(), ApiError>(ApiError::PostHandshakeAuthFailure),
    {
        if self.family != family || self.message_type != message_type {
            return Err(ApiError::PostHandshakeAuthFailure);
        }
        Ok(())
    }
}

/// Prepends already-read fields to the outcome of reading the rest.
pub open spec fn prepend_fields(
    pre: Seq<Seq<u8>>,
    rest: Option<(Seq<Seq<u8>>, Seq<u8>)>,
) -> Option<(Seq<Seq<u8>>, Seq<u8>)> {
    match rest {
        Some((fs, tail)) => Some((pre + fs, tail)),
        None => None,
    }
}

proof fn lemma_prepend_fields_step(
    pre: Seq<Seq<u8>>,
    field: Seq<u8>,
    rest: Option<(Seq<Seq<u8>>, Seq<u8>)>,
)
    ensures
        prepend_fields(
            pre,
            match rest {
                Some((fs, tail)) => Some((seq![field] + fs, tail)),
                None => None,
            },
        ) == prepend_fields(pre.push(field), rest),
{
    match rest {
        Some((fs, tail)) => {
            assert(pre + (seq![field] + fs) =~= pre.push(field) + fs);
        },
        None => {},
    }
}

fn ensure_message_size(message: &ApplicationMessage) -> (r: ApiResult<()>)
    ensures
        r is Ok <==> message_fits(message.field_seqs()),
        r is Err ==> r == Err::<(), ApiError>(size_error(message.field_seqs())),
{
    let ghost fs = message.field_seqs();
    if message.fields.len() > 255 {
        return Err(ApiError::RecordTooLarge { actual: message.fields.len(), max: 255 });
    }
    let mut size: usize = 4;
    let mut i: usize = 0;
    while i < message.fields.len()
        invariant
            fs == message.field_seqs(),
            fs.len() == message.fields@.len(),
            i <= fs.len(),
            size == saturate(4 + fields_size(fs.take(i as int))),
        decreases fs.len() - i,
    {
        assert(fs[i as int] == message.fields@[i as int]@);
        proof {
            lemma_fields_size_push(fs.take(i as int), fs[i as int]);
            assert(fs.take(i as int).push(fs[i as int]) =~= fs.take(i + 1));
            lemma_fields_size_nonneg(fs.take(i as int));
        }
        size = size.saturating_add(2).saturating_add(message.fields[i].len());
        i = i + 1;
    }
    assert(fs.take(fs.len() as int) =~= fs);
    proof {
        lemma_fields_size_nonneg(fs);
    }
    ensure_payload_len(size)
}

fn ensure_payload_len(len: usize) -> (r: ApiResult<()>)
    ensures
        r is Ok <==> len <= MAX_APPLICATION_PLAINTEXT_SIZE,
        r is Err ==> r == Err::<(), ApiError>(
            ApiError::RecordTooLarge { actual: len, max: MAX_APPLICATION_PLAINTEXT_SIZE },
        ),
{
    if len > MAX_APPLICATION_PLAINTEXT_SIZE {
        return Err(ApiError::RecordTooLarge { actual: len, max: MAX_APPLICATION_PLAINTEXT_SIZE });
    }
    Ok(())
}

fn take_byte(input: &mut &[u8]) -> (r: ApiResult<u8>)
    ensures
        r is Ok <==> old(input)@.len() >= 1,
        r matches Ok(v) ==> v == old(input)@[0] && final(input)@ == old(input)@.skip(1),
        r is Err ==> r == Err::<u8, ApiError>(ApiError::PostHandshakeAuthFailure),
{
    match take_u8(input) {
        Ok(value) => Ok(value),
        Err(error) => Err(map_codec_error(error)),
    }
}

/// Every codec failure inside an authenticated record is an authentication failure.
pub fn map_codec_error(_error: CodecError) -> (e: ApiError)
    ensures
        e == ApiError::PostHandshakeAuthFailure,
{
    ApiError::PostHandshakeAuthFailure
}

proof fn lemma_fields_size_nonneg(fs: Seq<Seq<u8>>)
    ensures
        fields_size(fs) >= 0,
    decreases fs.len(),
{
    if fs.len() > 0 {
        lemma_fields_size_nonneg(fs.drop_first());
    }
}

proof fn lemma_fields_size_push(fs: Seq<Seq<u8>>, f: Seq<u8>)
    ensures
        fields_size(fs.push(f)) == fields_size(fs) + 2 + f.len(),
    decreases fs.len(),
{
    if fs.len() > 0 {
        assert(fs.push(f).drop_first() =~= fs.drop_first().push(f));
        assert(fs.push(f)[0] == fs[0]);
        lemma_fields_size_push(fs.drop_first(), f);
        assert(fields_size(fs.push(f)) == 2 + fs[0].len() + fields_size(fs.drop_first().push(f)));
    } else {
        assert(fs.push(f).drop_first() =~= Seq::<Seq<u8>>::empty());
        assert(fields_size(Seq::<Seq<u8>>::empty()) == 0);
        assert(fs.push(f)[0] == f);
    }
}

proof fn lemma_encode_fields_push(fs: Seq<Seq<u8>>, f: Seq<u8>)
    ensures
        encode_fields(fs.push(f)) == encode_fields(fs) + len_prefixed(f),
    decreases fs.len(),
{
    if fs.len() == 0 {
        assert(fs.push(f).drop_first() =~= Seq::<Seq<u8>>::empty());
        assert(fs.push(f)[0] == f);
        assert(encode_fields(Seq::<Seq<u8>>::empty()) == Seq::<u8>::empty());
        assert(encode_fields(fs.push(f)) =~= encode_fields(fs) + len_prefixed(f));
    } else {
        assert(fs.push(f).drop_first() =~= fs.drop_first().push(f));
        assert(fs.push(f)[0] == fs[0]);
        lemma_encode_fields_push(fs.drop_first(), f);
        assert(encode_fields(fs.push(f)) == len_prefixed(fs[0]) + encode_fields(fs.drop_first().push(f)));
        assert(encode_fields(fs) == len_prefixed(fs[0]) + encode_fields(fs.drop_first()));
        assert(encode_fields(fs.push(f)) =~= encode_fields(fs) + len_prefixed(f));
    }
}

proof fn lemma_field_within_size(fs: Seq<Seq<u8>>, i: int)
    requires
        0 <= i < fs.len(),
    ensures
        2 + fs[i].len() <= fields_size(fs),
    decreases fs.len(),
{
    lemma_fields_size_nonneg(fs.drop_first());
    if i > 0 {
        lemma_field_within_size(fs.drop_first(), i - 1);
    }
}

pub proof fn lemma_fits_fields_short(fs: Seq<Seq<u8>>)
    requires
        message_fits(fs),
    ensures
        fields_short(fs),
{
    assert forall|i: int| 0 <= i < fs.len() implies #[trigger] fs[i].len() <= u16::MAX by {
        lemma_field_within_size(fs, i);
    }
}

proof fn lemma_encode_fields_len(fs: Seq<Seq<u8>>)
    requires
        fields_short(fs),
    ensures
        encode_fields(fs).len() == fields_size(fs),
    decreases fs.len(),
{
    if fs.len() > 0 {
        assert(fields_short(fs.drop_first())) by {
            assert forall|i: int| 0 <= i < fs.drop_first().len() implies #[trigger] fs.drop_first()[i].len()
                <= u16::MAX by {
                assert(fs.drop_first()[i] == fs[i + 1]);
            }
        }
        lemma_encode_fields_len(fs.drop_first());
    }
}

proof fn lemma_u16_be_round_trip(n: u16, rest: Seq<u8>)
    ensures
        u16_from_be(u16_be(n) + rest) == n,
        (u16_be(n) + rest).len() == 2 + rest.len(),
{
    let s = u16_be(n) + rest;
    assert(s[0] == (n / 256) as u8);
    assert(s[1] == (n % 256) as u8);
}

/// Reading `fs.len()` fields from their encoding followed by `rest` gives back
/// exactly `fs` and `rest`.
proof fn lemma_parse_encode_fields(fs: Seq<Seq<u8>>, rest: Seq<u8>)
    requires
        fields_short(fs),
    ensures
        parse_fields(encode_fields(fs) + rest, fs.len()) == Some((fs, rest)),
    decreases fs.len(),
{
    if fs.len() == 0 {
        assert(encode_fields(fs) + rest =~= rest);
        assert(fs =~= Seq::<Seq<u8>>::empty());
    } else {
        let f = fs[0];
        let tail = fs.drop_first();
        assert(fields_short(tail)) by {
            assert forall|i: int| 0 <= i < tail.len() implies #[trigger] tail[i].len() <= u16::MAX by {
                assert(tail[i] == fs[i + 1]);
            }
        }
        let input = encode_fields(fs) + rest;
        assert(f.len() <= u16::MAX);
        let after = encode_fields(tail) + rest;
        assert(input =~= u16_be(f.len() as u16) + (f + after));
        lemma_u16_be_round_trip(f.len() as u16, f + after);
        assert(u16_from_be(input) == f.len());
        assert(input.skip(2 + f.len() as int) =~= after);
        assert(input.subrange(2, 2 + f.len() as int) =~= f);
        lemma_parse_encode_fields(tail, rest);
        assert(seq![f] + tail =~= fs);
    }
}

/// Whatever `count` fields are read from `input` came from their own encoding.
proof fn lemma_parse_fields_canonical(input: Seq<u8>, count: nat)
    requires
        parse_fields(input, count) is Some,
    ensures
        ({
            let (fs, rest) = parse_fields(input, count)->0;
            &&& fs.len() == count
            &&& fields_short(fs)
            &&& input == encode_fields(fs) + rest
        }),
    decreases count,
{
    if count == 0 {
        assert(input =~= encode_fields(Seq::<Seq<u8>>::empty()) + input);
    } else {
        let n = u16_from_be(input) as int;
        let f = input.subrange(2, 2 + n);
        lemma_parse_fields_canonical(input.skip(2 + n), (count - 1) as nat);
        let (tail, rest) = parse_fields(input.skip(2 + n), (count - 1) as nat)->0;
        let fs = seq![f] + tail;
        assert(fs.drop_first() =~= tail);
        assert(fs[0] == f);
        assert(fields_short(fs)) by {
            assert forall|i: int| 0 <= i < fs.len() implies #[trigger] fs[i].len() <= u16::MAX by {
                if i > 0 {
                    assert(fs[i] == tail[i - 1]);
                }
            }
        }
        let b0 = input[0];
        let b1 = input[1];
        assert(u16_be(f.len() as u16) =~= seq![b0, b1]) by {
            assert(f.len() == b0 as int * 256 + b1 as int);
        }
        assert(input =~= seq![b0, b1] + f + input.skip(2 + n));
        assert(input =~= encode_fields(fs) + rest);
    }
}

/// Law: decoding the encoding of a message that fits gives back that message.
pub proof fn lemma_message_encode_decode(family: u8, message_type: u8, fields: Seq<Seq<u8>>)
    requires
        message_fits(fields),
    ensures
        parse_message(encode_message(family, message_type, fields)) == Some(
            (family, message_type, fields),
        ),
{
    lemma_fits_fields_short(fields);
    lemma_encode_fields_len(fields);
    let record = encode_message(family, message_type, fields);
    assert(record.skip(4) =~= encode_fields(fields) + Seq::<u8>::empty());
    lemma_parse_encode_fields(fields, Seq::<u8>::empty());
}

/// Law: v1 messages have one encoding; bytes that decode are exactly the
/// encoding of what they decode to, and that message fits the v1 limits.
pub proof fn lemma_parse_message_canonical(record: Seq<u8>)
    requires
        parse_message(record) is Some,
    ensures
        ({
            let (family, message_type, fields) = parse_message(record)->0;
            &&& message_fits(fields)
            &&& record == encode_message(family, message_type, fields)
        }),
{
    lemma_parse_fields_canonical(record.skip(4), record[3] as nat);
    let (fs, rest) = parse_fields(record.skip(4), record[3] as nat)->0;
    lemma_encode_fields_len(fs);
    lemma_fields_size_nonneg(fs);
    assert(record =~= seq![record[0], record[1], record[2], record[3]] + record.skip(4));
    assert(record =~= encode_message(record[1], record[2], fs));
}


/// Decodes one message field as a UTF-8 string that fits a 16-bit length.
///
/// Fails with `PostHandshakeAuthFailure` exactly when the field is not valid
/// UTF-8 or is longer than `u16::MAX` bytes.
pub(crate) fn string_field(field: &[u8]) -> (r: ApiResult<String>)
    ensures
        r is Ok <==> valid_utf8(field@) && field@.len() <= u16::MAX,
        r matches Ok(s) ==> s@ == decode_utf8(field@),
        r is Err ==> r == Err::<String, ApiError>(ApiError::PostHandshakeAuthFailure),
{
    let text = match str_from_utf8(field) {
        Some(text) => text,
        None => {
            return Err(ApiError::PostHandshakeAuthFailure);
        },
    };
    proof {
        vstd::utf8::decode_utf8_encode_utf8(field@);
    }
    let mut encoded: Vec<u8> = Vec::new();
    match put_len_prefixed_str(&mut encoded, text) {
        Ok(()) => {},
        Err(error) => {
            return Err(map_codec_error(error));
        },
    }
    let mut input = encoded.as_slice();
    proof {
        lemma_u16_be_round_trip(field@.len() as u16, field@);
        assert(input@.subrange(2, 2 + u16_from_be(input@)) =~= field@);
        assert(input@.skip(2 + u16_from_be(input@)) =~= Seq::<u8>::empty());
    }
    let value = match take_len_prefixed_string(&mut input) {
        Ok(value) => value,
        Err(error) => {
            return Err(map_codec_error(error));
        },
    };
    match ensure_empty(input) {
        Ok(()) => {},
        Err(error) => {
            return Err(map_codec_error(error));
        },
    }
    Ok(value)
}

/// Moves exactly `N` fields out of `fields`.
///
/// Fails with `PostHandshakeAuthFailure` exactly when there are not `N` fields.
pub(crate) fn take_fields<const N: usize>(fields: Vec<Vec<u8>>) -> (r: ApiResult<Vec<Vec<u8>>>)
    ensures
        r is Ok <==> fields@.len() == N,
        r matches Ok(v) ==> v.deep_view() == fields.deep_view() && v@.len() == N,
        r is Err ==> r == Err::<Vec<Vec<u8>>, ApiError>(ApiError::PostHandshakeAuthFailure),
{
    if fields.len() != N {
        return Err(ApiError::PostHandshakeAuthFailure);
    }
    Ok(fields)
}


/// Builds and encodes a message from fields in one step.
pub(crate) fn encode_new_message(family: u8, message_type: u8, fields: Vec<Vec<u8>>) -> (r: ApiResult<
    Vec<u8>,
>)
    ensures
        r is Ok <==> message_fits(fields.deep_view()),
        r matches Ok(out) ==> out@ == encode_message(family, message_type, fields.deep_view()),
        r is Err ==> r == Err::<Vec<u8>, ApiError>(size_error(fields.deep_view())),
{
    ApplicationMessage::new(family, message_type, fields)?.encode()
}

} // verus!

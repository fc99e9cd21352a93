//! Length-prefixed big-endian primitives shared by every v1 encoding.

use vstd::prelude::*;
use vstd::utf8::{decode_utf8, encode_utf8, valid_utf8};

verus! {

/// Failure of a low-level codec primitive.
#[derive(Debug, Clone, Copy, PartialEq, Eq)]
pub enum CodecError {
    /// A length does not fit the 16-bit length prefix.
    LengthOverflow,
    /// The input ended before the value did.
    UnexpectedEof,
    /// Bytes that had to be UTF-8 were not.
    InvalidUtf8,
    /// Bytes were left over after a complete value.
    TrailingBytes,
}

/// Big-endian encoding of a 16-bit value.
pub open spec fn u16_be(value: u16) -> Seq<u8> {
    seq![(value / 256) as u8, (value % 256) as u8]
}

/// Value of two big-endian bytes.
pub open spec fn u16_from_be(bytes: Seq<u8>) -> u16 {
    (bytes[0] as int * 256 + bytes[1] as int) as u16
}

/// A byte string preceded by its 16-bit big-endian length.
pub open spec fn len_prefixed(value: Seq<u8>) -> Seq<u8> {
    u16_be(value.len() as u16) + value
}

/// Big-endian encoding of a 64-bit value.
pub open spec fn u64_be(value: u64) -> Seq<u8> {
    seq![
        (value >> 56u64) as u8,
        (value >> 48u64) as u8,
        (value >> 40u64) as u8,
        (value >> 32u64) as u8,
        (value >> 24u64) as u8,
        (value >> 16u64) as u8,
        (value >> 8u64) as u8,
        value as u8,
    ]
}

/// Value of eight big-endian bytes.
pub open spec fn u64_from_be(b: Seq<u8>) -> u64 {
    u64_from_be_parts(b[0], b[1], b[2], b[3], b[4], b[5], b[6], b[7])
}

pub open spec fn u64_from_be_parts(
    b0: u8,
    b1: u8,
    b2: u8,
    b3: u8,
    b4: u8,
    b5: u8,
    b6: u8,
    b7: u8,
) -> u64 {
    (b0 as u64) << 56u64 | (b1 as u64) << 48u64 | (b2 as u64) << 40u64 | (b3 as u64) << 32u64
        | (b4 as u64) << 24u64 | (b5 as u64) << 16u64 | (b6 as u64) << 8u64 | (b7 as u64)
}

/// Decoding eight big-endian bytes gives back the value that was encoded.
pub proof fn lemma_u64_be_round_trip(value: u64)
    ensures
        u64_from_be(u64_be(value)) == value,
{
    let b = u64_be(value);
    assert(u64_from_be_parts(
        (value >> 56u64) as u8,
        (value >> 48u64) as u8,
        (value >> 40u64) as u8,
        (value >> 32u64) as u8,
        (value >> 24u64) as u8,
        (value >> 16u64) as u8,
        (value >> 8u64) as u8,
        value as u8,
    ) == value) by (bit_vector);
}

/// Encoding the value of eight bytes gives back those bytes.
pub proof fn lemma_u64_from_be_round_trip(b: Seq<u8>)
    requires
        b.len() == 8,
    ensures
        u64_be(u64_from_be(b)) == b,
{
    let (b0, b1, b2, b3, b4, b5, b6, b7) = (b[0], b[1], b[2], b[3], b[4], b[5], b[6], b[7]);
    let v = u64_from_be_parts(b0, b1, b2, b3, b4, b5, b6, b7);
    assert((v >> 56u64) as u8 == b0 && (v >> 48u64) as u8 == b1 && (v >> 40u64) as u8 == b2
        && (v >> 32u64) as u8 == b3 && (v >> 24u64) as u8 == b4 && (v >> 16u64) as u8 == b5
        && (v >> 8u64) as u8 == b6 && v as u8 == b7) by (bit_vector)
        requires
            v == u64_from_be_parts(b0, b1, b2, b3, b4, b5, b6, b7),
    ;
    assert(u64_be(v) =~= b);
}

/// Big-endian bytes of a 16-bit value.
pub fn u16_to_be_bytes(value: u16) -> (out: [u8; 2])
    ensures
        out@ == u16_be(value),
{
    [(value / 256) as u8, (value % 256) as u8]
}

/// Big-endian bytes of a 64-bit value.
pub fn u64_to_be_bytes(value: u64) -> (out: [u8; 8])
    ensures
        out@ == u64_be(value),
{
    let out = [
        (value >> 56u64) as u8,
        (value >> 48u64) as u8,
        (value >> 40u64) as u8,
        (value >> 32u64) as u8,
        (value >> 24u64) as u8,
        (value >> 16u64) as u8,
        (value >> 8u64) as u8,
        value as u8,
    ];
    assert(out@ =~= u64_be(value));
    out
}

/// Whether two byte strings are equal.
pub fn bytes_equal(a: &[u8], b: &[u8]) -> (eq: bool)
    ensures
        eq <==> a@ == b@,
{
    if a.len() != b.len() {
        return false;
    }
    let mut i: usize = 0;
    while i < a.len()
        invariant
            i <= a@.len(),
            a@.len() == b@.len(),
            forall|j: int| 0 <= j < i ==> a@[j] == b@[j],
        decreases a@.len() - i,
    {
        if a[i] != b[i] {
            return false;
        }
        i = i + 1;
    }
    assert(a@ =~= b@);
    true
}

/// Appends all of `value` to `buffer`.
pub fn extend_bytes(buffer: &mut Vec<u8>, value: &[u8])
    ensures
        final(buffer)@ == old(buffer)@ + value@,
{
    let ghost start = buffer@;
    let mut i: usize = 0;
    while i < value.len()
        invariant
            i <= value@.len(),
            buffer@ == start + value@.subrange(0, i as int),
        decreases value@.len() - i,
    {
        buffer.push(value[i]);
        i = i + 1;
        assert(buffer@ =~= start + value@.subrange(0, i as int));
    }
    assert(value@.subrange(0, value@.len() as int) =~= value@);
}

/// Appends `value` preceded by its 16-bit big-endian length.
///
/// Fails with `LengthOverflow`, leaving `buffer` as it was, when `value` is
/// longer than `u16::MAX` bytes.
pub fn put_len_prefixed_bytes(buffer: &mut Vec<u8>, value: &[u8]) -> (r: Result<(), CodecError>)
    ensures
        r is Ok <==> value@.len() <= u16::MAX,
        r is Ok ==> final(buffer)@ == old(buffer)@ + len_prefixed(value@),
        r is Err ==> r == Err::<(), CodecError>(CodecError::LengthOverflow) && final(buffer)@
            == old(buffer)@,
{
    if value.len() > 65535 {
        return Err(CodecError::LengthOverflow);
    }
    let len = value.len() as u16;
    let prefix = u16_to_be_bytes(len);
    extend_bytes(buffer, prefix.as_slice());
    extend_bytes(buffer, value);
    assert(final(buffer)@ =~= old(buffer)@ + len_prefixed(value@));
    Ok(())
}

/// Appends the UTF-8 bytes of `value` preceded by their 16-bit length.
pub fn put_len_prefixed_str(buffer: &mut Vec<u8>, value: &str) -> (r: Result<(), CodecError>)
    ensures
        r is Ok <==> encode_utf8(value@).len() <= u16::MAX,
        r is Ok ==> final(buffer)@ == old(buffer)@ + len_prefixed(encode_utf8(value@)),
        r is Err ==> r == Err::<(), CodecError>(CodecError::LengthOverflow) && final(buffer)@
            == old(buffer)@,
{
    put_len_prefixed_bytes(buffer, value.as_bytes())
}


/// Reads one byte and advances `input` past it.
pub fn take_u8(input: &mut &[u8]) -> (r: Result<u8, CodecError>)
    ensures
        r is Ok <==> old(input)@.len() >= 1,
        r matches Ok(v) ==> v == old(input)@[0] && final(input)@ == old(input)@.skip(1),
        r is Err ==> r == Err::<u8, CodecError>(CodecError::UnexpectedEof) && final(input)@
            == old(input)@,
{
    if input.len() < 1 {
        return Err(CodecError::UnexpectedEof);
    }
    let value = input[0];
    *input = &input[1..input.len()];
    Ok(value)
}

/// Reads a big-endian 16-bit value and advances `input` past it.
pub fn take_u16(input: &mut &[u8]) -> (r: Result<u16, CodecError>)
    ensures
        r is Ok <==> old(input)@.len() >= 2,
        r matches Ok(v) ==> v == u16_from_be(old(input)@) && final(input)@ == old(input)@.skip(2),
        r is Err ==> r == Err::<u16, CodecError>(CodecError::UnexpectedEof) && final(input)@
            == old(input)@,
{
    if input.len() < 2 {
        return Err(CodecError::UnexpectedEof);
    }
    let value = (input[0] as u16) * 256 + (input[1] as u16);
    *input = &input[2..input.len()];
    Ok(value)
}

/// Reads a big-endian 64-bit value and advances `input` past it.
pub fn take_u64(input: &mut &[u8]) -> (r: Result<u64, CodecError>)
    ensures
        r is Ok <==> old(input)@.len() >= 8,
        r matches Ok(v) ==> v == u64_from_be(old(input)@) && final(input)@ == old(input)@.skip(8),
        r is Err ==> r == Err::<u64, CodecError>(CodecError::UnexpectedEof) && final(input)@
            == old(input)@,
{
    if input.len() < 8 {
        return Err(CodecError::UnexpectedEof);
    }
    let value = (input[0] as u64) << 56u64 | (input[1] as u64) << 48u64 | (input[2] as u64)
        << 40u64 | (input[3] as u64) << 32u64 | (input[4] as u64) << 24u64 | (input[5] as u64)
        << 16u64 | (input[6] as u64) << 8u64 | (input[7] as u64);
    *input = &input[8..input.len()];
    Ok(value)
}

/// Reads a 16-bit length and then that many bytes, advancing `input` past both.
/// When fewer bytes follow than the length names, the length itself has
/// been consumed.
pub fn take_len_prefixed_bytes(input: &mut &[u8]) -> (r: Result<Vec<u8>, CodecError>)
    ensures
        r is Ok <==> old(input)@.len() >= 2 && old(input)@.len() - 2 >= u16_from_be(old(input)@),
        r matches Ok(v) ==> {
            &&& v@ == old(input)@.subrange(2, 2 + u16_from_be(old(input)@))
            &&& final(input)@ == old(input)@.skip(2 + u16_from_be(old(input)@))
        },
        r is Err ==> r == Err::<Vec<u8>, CodecError>(CodecError::UnexpectedEof),
        old(input)@.len() < 2 ==> final(input)@ == old(input)@,
        r is Err && old(input)@.len() >= 2 ==> final(input)@ == old(input)@.skip(2),
{
    let len = take_u16(input)?;
    let len = len as usize;
    if input.len() < len {
        return Err(CodecError::UnexpectedEof);
    }
    let out = vstd::slice::slice_to_vec(&input[0..len]);
    *input = &input[len..input.len()];
    assert(out@ =~= old(input)@.subrange(2, 2 + u16_from_be(old(input)@)));
    assert(final(input)@ =~= old(input)@.skip(2 + u16_from_be(old(input)@)));
    Ok(out)
}

/// Reads exactly `N` bytes and advances `input` past them.
pub fn take_fixed<const N: usize>(input: &mut &[u8]) -> (r: Result<[u8; N], CodecError>)
    ensures
        r is Ok <==> old(input)@.len() >= N,
        r matches Ok(v) ==> v@ == old(input)@.take(N as int) && final(input)@ == old(input)@.skip(
            N as int,
        ),
        r is Err ==> r == Err::<[u8; N], CodecError>(CodecError::UnexpectedEof) && final(input)@
            == old(input)@,
{
    if input.len() < N {
        return Err(CodecError::UnexpectedEof);
    }
    let mut out = [0u8; N];
    let mut i: usize = 0;
    while i < N
        invariant
            i <= N,
            N <= input@.len(),
            forall|j: int| 0 <= j < i ==> out@[j] == input@[j],
        decreases N - i,
    {
        out[i] = input[i];
        i = i + 1;
    }
    assert(out@ =~= input@.take(N as int));
    *input = &input[N..input.len()];
    Ok(out)
}

/// Succeeds exactly when no input is left.
pub fn ensure_empty(input: &[u8]) -> (r: Result<(), CodecError>)
    ensures
        r is Ok <==> input@.len() == 0,
        r is Err ==> r == Err::<(), CodecError>(CodecError::TrailingBytes),
{
    if input.len() == 0 {
        Ok(())
    } else {
        Err(CodecError::TrailingBytes)
    }
}


/// `String::from_utf8`, which std documents to succeed exactly when the bytes
/// are valid UTF-8 and then to return the string they encode.
#[verifier::external_body]
pub(crate) fn string_from_utf8(bytes: Vec<u8>) -> (r: Option<String>)
    ensures
        r is Some <==> valid_utf8(bytes@),
        r matches Some(s) ==> s@ == decode_utf8(bytes@),
{
    String::from_utf8(bytes).ok()
}

/// `std::str::from_utf8`, which std documents to succeed exactly when the
/// bytes are valid UTF-8 and then to return the string they encode.
#[verifier::external_body]
pub(crate) fn str_from_utf8(bytes: &[u8]) -> (r: Option<&str>)
    ensures
        r is Some <==> valid_utf8(bytes@),
        r matches Some(s) ==> s@ == decode_utf8(bytes@),
{
    std::str::from_utf8(bytes).ok()
}

/// Reads a length-prefixed UTF-8 string and advances `input` past it.
pub fn take_len_prefixed_string(input: &mut &[u8]) -> (r: Result<String, CodecError>)
    ensures
        ({
            let ok_len = old(input)@.len() >= 2 && old(input)@.len() - 2 >= u16_from_be(
                old(input)@,
            );
            let body = old(input)@.subrange(2, 2 + u16_from_be(old(input)@));
            &&& r is Ok <==> ok_len && valid_utf8(body)
            &&& r matches Ok(s) ==> s@ == decode_utf8(body) && final(input)@ == old(input)@.skip(
                2 + u16_from_be(old(input)@),
            )
            &&& !ok_len ==> r == Err::<String, CodecError>(CodecError::UnexpectedEof)
            &&& ok_len && !valid_utf8(body) ==> r == Err::<String, CodecError>(
                CodecError::InvalidUtf8,
            )
            &&& ok_len ==> final(input)@ == old(input)@.skip(2 + u16_from_be(old(input)@))
            &&& old(input)@.len() < 2 ==> final(input)@ == old(input)@
            &&& old(input)@.len() >= 2 && !ok_len ==> final(input)@ == old(input)@.skip(2)
        }),
{
    let bytes = take_len_prefixed_bytes(input)?;
    match string_from_utf8(bytes) {
        Some(s) => Ok(s),
        None => Err(CodecError::InvalidUtf8),
    }
}

} // verus!

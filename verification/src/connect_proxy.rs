//! The request side of the smoke harness's HTTP `CONNECT` proxy: when a
//! request is complete, and which authority it asks to tunnel to.

use vstd::prelude::*;

use vstd::string::StrSliceExecFns;
use vstd::utf8::{decode_utf8, valid_utf8};

use crate::codec::str_from_utf8;
use crate::descriptor::chars_of;
use crate::text::{char_is_whitespace, is_white_space, str_eq};

verus! {

/// The largest `CONNECT` request the proxy reads before giving up.
pub const MAX_CONNECT_REQUEST_BYTES: usize = 8192;

/// Whether a request ends with the blank line `\r\n\r\n`.
pub open spec fn request_complete_spec(request: Seq<u8>) -> bool {
    request.len() >= 4 && request.subrange(request.len() - 4, request.len() as int) == seq![
        13u8,
        10u8,
        13u8,
        10u8,
    ]
}

/// Whether a request read so far ends with the blank line that ends it.
pub fn request_complete(request: &[u8]) -> (b: bool)
    ensures
        b == request_complete_spec(request@),
{
    let n = request.len();
    if n < 4 {
        return false;
    }
    let complete = request[n - 4] == 13 && request[n - 3] == 10 && request[n - 2] == 13
        && request[n - 1] == 10;
    assert(complete == (request@.subrange(n - 4, n as int) =~= seq![13u8, 10u8, 13u8, 10u8]));
    complete
}

/// Where the first `\r\n` of `s` at or after `p` starts, or the length.
pub open spec fn line_end(s: Seq<char>, p: int) -> int
    decreases s.len() - p,
{
    if p < 0 || p + 1 >= s.len() {
        s.len() as int
    } else if s[p] == '\r' && s[p + 1] == '\n' {
        p
    } else {
        line_end(s, p + 1)
    }
}

/// The first position at or after `p` that is not white space, or the end.
pub open spec fn skip_white_space(s: Seq<char>, p: int) -> int
    decreases s.len() - p,
{
    if p < 0 || p >= s.len() || !is_white_space(s[p]) {
        p
    } else {
        skip_white_space(s, p + 1)
    }
}

/// The first white-space position at or after `p`, or the end.
pub open spec fn word_end(s: Seq<char>, p: int) -> int
    decreases s.len() - p,
{
    if p < 0 || p >= s.len() || is_white_space(s[p]) {
        p
    } else {
        word_end(s, p + 1)
    }
}

/// The bounds of the first white-space separated word of `s` at or after
/// `p`, if there is one.
pub open spec fn next_word(s: Seq<char>, p: int) -> Option<(int, int)> {
    let start = skip_white_space(s, p);
    if start >= s.len() {
        None
    } else {
        Some((start, word_end(s, start)))
    }
}

/// The authority a `CONNECT` request asks for: the request must be UTF-8,
/// and the first three words of its first line must be `CONNECT`, the
/// authority, and `HTTP/1.1` or `HTTP/1.0`.
pub open spec fn connect_authority_spec(request: Seq<u8>) -> Option<Seq<char>> {
    if !valid_utf8(request) {
        None
    } else {
        let text = decode_utf8(request);
        let line = text.take(line_end(text, 0));
        match next_word(line, 0) {
            None => None,
            Some((s0, e0)) => match next_word(line, e0) {
                None => None,
                Some((s1, e1)) => match next_word(line, e1) {
                    None => None,
                    Some((s2, e2)) => if line.subrange(s0, e0) == "CONNECT"@ && (line.subrange(
                        s2,
                        e2,
                    ) == "HTTP/1.1"@ || line.subrange(s2, e2) == "HTTP/1.0"@) {
                        Some(line.subrange(s1, e1))
                    } else {
                        None
                    },
                },
            },
        }
    }
}

/// Finds where the first line of `chars` ends.
fn find_line_end(chars: &Vec<char>) -> (end: usize)
    ensures
        end == line_end(chars@, 0),
        end <= chars@.len(),
{
    let n = chars.len();
    let mut p: usize = 0;
    while n > 0 && p < n - 1
        invariant
            n == chars@.len(),
            p <= n,
            line_end(chars@, p as int) == line_end(chars@, 0),
        decreases n - p,
    {
        if chars[p] == '\r' && chars[p + 1] == '\n' {
            return p;
        }
        p = p + 1;
    }
    n
}

/// Finds the bounds of the first word of `line[..len]` at or after `p`.
fn find_word(line: &Vec<char>, len: usize, p: usize) -> (r: Option<(usize, usize)>)
    requires
        len <= line@.len(),
        p <= len,
    ensures
        match r {
            Some((s, e)) => next_word(line@.take(len as int), p as int) == Some((s as int, e as int)),
            None => next_word(line@.take(len as int), p as int) is None,
        },
        r matches Some((s, e)) ==> p <= s < e <= len,
{
    let ghost l = line@.take(len as int);
    let mut start = p;
    while start < len && char_is_whitespace(line[start])
        invariant
            len <= line@.len(),
            l == line@.take(len as int),
            p <= start <= len,
            skip_white_space(l, start as int) == skip_white_space(l, p as int),
        decreases len - start,
    {
        start = start + 1;
    }
    if start >= len {
        return None;
    }
    let mut end = start;
    while end < len && !char_is_whitespace(line[end])
        invariant
            len <= line@.len(),
            l == line@.take(len as int),
            start <= end <= len,
            start < len,
            word_end(l, end as int) == word_end(l, start as int),
        decreases len - end,
    {
        end = end + 1;
    }
    Some((start, end))
}

/// The authority a complete `CONNECT` request asks to tunnel to; see
/// `connect_authority_spec`.
pub fn connect_authority(request: &[u8]) -> (r: Option<String>)
    ensures
        match r {
            Some(a) => connect_authority_spec(request@) == Some(a@),
            None => connect_authority_spec(request@) is None,
        },
{
    let text = match str_from_utf8(request) {
        Some(text) => text,
        None => return None,
    };
    let chars = chars_of(text);
    let len = find_line_end(&chars);
    let ghost line = chars@.take(len as int);
    let (s0, e0) = match find_word(&chars, len, 0) {
        Some(bounds) => bounds,
        None => return None,
    };
    let (s1, e1) = match find_word(&chars, len, e0) {
        Some(bounds) => bounds,
        None => return None,
    };
    let (s2, e2) = match find_word(&chars, len, e1) {
        Some(bounds) => bounds,
        None => return None,
    };
    proof {
        assert(line.subrange(s0 as int, e0 as int) =~= text@.subrange(s0 as int, e0 as int));
        assert(line.subrange(s1 as int, e1 as int) =~= text@.subrange(s1 as int, e1 as int));
        assert(line.subrange(s2 as int, e2 as int) =~= text@.subrange(s2 as int, e2 as int));
    }
    let method = text.substring_char(s0, e0);
    let authority = text.substring_char(s1, e1);
    let version = text.substring_char(s2, e2);
    if str_eq(method, "CONNECT") && (str_eq(version, "HTTP/1.1") || str_eq(version, "HTTP/1.0")) {
        Some(authority.to_owned())
    } else {
        None
    }
}

} // verus!

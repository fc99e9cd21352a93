//! A small `a+b+c` integer-sum parser kept for binding compatibility.

use vstd::prelude::*;
use vstd::string::StrSliceExecFns;
use vstd::utf8::{encode_utf8, is_ascii_chars};

use crate::text::{char_is_whitespace, concat_str, is_white_space, string_from_encoding};

verus! {

/// Parser error retained for binding compatibility.
#[derive(Debug, Clone, PartialEq, Eq)]
pub enum ParseError {
    /// A generic parsing error with a descriptive message.
    Generic(String),
}

impl ParseError {
    /// The descriptive message the error carries.
    pub open spec fn detail(&self) -> Seq<char> {
        match self {
            ParseError::Generic(m) => m@,
        }
    }

    /// The display form of the error: `Parse error: ` and its message.
    pub fn message(&self) -> (s: String)
        ensures
            s@ == "Parse error: "@ + self.detail(),
    {
        match self {
            ParseError::Generic(m) => concat_str("Parse error: ", m.as_str()),
        }
    }
}

/// Why text is not an `i64`.
#[derive(Debug, Clone, Copy, PartialEq, Eq)]
pub enum IntErrorKind {
    /// The text is empty.
    Empty,
    /// The text holds a character that is not a decimal digit where one is needed.
    InvalidDigit,
    /// The value is above `i64::MAX`.
    PosOverflow,
    /// The value is below `i64::MIN`.
    NegOverflow,
}

/// How an integer error reads.
pub open spec fn int_error_text(kind: IntErrorKind) -> Seq<char> {
    match kind {
        IntErrorKind::Empty => "cannot parse integer from empty string"@,
        IntErrorKind::InvalidDigit => "invalid digit found in string"@,
        IntErrorKind::PosOverflow => "number too large to fit in target type"@,
        IntErrorKind::NegOverflow => "number too small to fit in target type"@,
    }
}

/// Whether `c` is an ASCII decimal digit.
pub open spec fn is_decimal_digit(c: char) -> bool {
    '0' <= c <= '9'
}

/// Value of a decimal digit.
pub open spec fn digit_value(c: char) -> int {
    c as int - '0' as int
}

/// Whether `v` fits `i64`.
pub open spec fn in_i64(v: int) -> bool {
    i64::MIN <= v <= i64::MAX
}

/// Scans decimal digits left to right onto `acc`, subtracting them for a
/// negative number; the first non-digit or out-of-range step decides the error.
pub open spec fn scan_digits(digits: Seq<char>, acc: int, negative: bool) -> Result<int, IntErrorKind>
    decreases digits.len(),
{
    if digits.len() == 0 {
        Ok(acc)
    } else if !is_decimal_digit(digits[0]) {
        Err(IntErrorKind::InvalidDigit)
    } else {
        let next = if negative {
            acc * 10 - digit_value(digits[0])
        } else {
            acc * 10 + digit_value(digits[0])
        };
        if !in_i64(next) {
            Err(
                if negative {
                    IntErrorKind::NegOverflow
                } else {
                    IntErrorKind::PosOverflow
                },
            )
        } else {
            scan_digits(digits.drop_first(), next, negative)
        }
    }
}

/// What parsing decimal text as an `i64` gives: an optional sign, then digits.
pub open spec fn parse_i64_spec(text: Seq<char>) -> Result<int, IntErrorKind> {
    if text.len() == 0 {
        Err(IntErrorKind::Empty)
    } else if (text[0] == '+' || text[0] == '-') && text.len() == 1 {
        Err(IntErrorKind::InvalidDigit)
    } else if text[0] == '+' {
        scan_digits(text.drop_first(), 0, false)
    } else if text[0] == '-' {
        scan_digits(text.drop_first(), 0, true)
    } else {
        scan_digits(text, 0, false)
    }
}

/// Number of white-space characters at the start of `s`.
pub open spec fn leading_space(s: Seq<char>) -> nat
    decreases s.len(),
{
    if s.len() == 0 || !is_white_space(s[0]) {
        0
    } else {
        1 + leading_space(s.drop_first())
    }
}

/// Number of white-space characters at the end of `s`.
pub open spec fn trailing_space(s: Seq<char>) -> nat
    decreases s.len(),
{
    if s.len() == 0 || !is_white_space(s.last()) {
        0
    } else {
        1 + trailing_space(s.drop_last())
    }
}

/// `s` without white space at either end.
pub open spec fn trim(s: Seq<char>) -> Seq<char> {
    if leading_space(s) == s.len() {
        Seq::empty()
    } else {
        s.subrange(leading_space(s) as int, s.len() - trailing_space(s))
    }
}

/// Position of the first `+` in `s`, or its length when there is none.
pub open spec fn plus_index(s: Seq<char>) -> nat
    decreases s.len(),
{
    if s.len() == 0 || s[0] == '+' {
        0
    } else {
        1 + plus_index(s.drop_first())
    }
}

/// The message for a part between `+` signs that holds no number.
pub open spec fn missing_operand_text() -> Seq<char> {
    "expected a number between '+' operators"@
}

/// The message for a part that is not an `i64`.
pub open spec fn invalid_integer_text(number: Seq<char>, kind: IntErrorKind) -> Seq<char> {
    "invalid integer `"@ + number + "`: "@ + int_error_text(kind)
}

/// The message for a sum that leaves `i64`.
pub open spec fn overflow_text(number: Seq<char>) -> Seq<char> {
    "integer overflow while summing expression near `"@ + number + "`"@
}

/// Sums the `+`-separated parts of `s` onto `total`, part by part, stopping
/// at the first part that is empty, not an `i64`, or overflows the sum.
pub open spec fn sum_parts(s: Seq<char>, total: int) -> Result<int, Seq<char>>
    decreases s.len(),
{
    let cut = plus_index(s);
    let number = trim(s.take(cut as int));
    if number.len() == 0 {
        Err(missing_operand_text())
    } else {
        match parse_i64_spec(number) {
            Err(kind) => Err(invalid_integer_text(number, kind)),
            Ok(v) => if !in_i64(total + v) {
                Err(overflow_text(number))
            } else if cut >= s.len() {
                Ok(total + v)
            } else {
                sum_parts(s.skip(cut + 1int), total + v)
            },
        }
    }
}

/// What `parse` computes for `input`: the sum, or the message of its error.
pub open spec fn parse_spec(input: Seq<char>) -> Result<int, Seq<char>> {
    if trim(input).len() == 0 {
        Err("input is empty"@)
    } else {
        sum_parts(trim(input), 0)
    }
}

/// Decimal digits of a natural number.
pub open spec fn decimal_digits(n: nat) -> Seq<char>
    decreases n,
{
    if n < 10 {
        seq![('0' as int + n) as char]
    } else {
        decimal_digits(n / 10) + seq![('0' as int + n % 10) as char]
    }
}

/// Decimal text of an integer: a `-` for negatives, then its digits.
pub open spec fn decimal_text(v: int) -> Seq<char> {
    if v < 0 {
        seq!['-'] + decimal_digits((-v) as nat)
    } else {
        decimal_digits(v as nat)
    }
}

proof fn lemma_leading_space(s: Seq<char>, k: int)
    requires
        0 <= k <= s.len(),
        forall|i: int| 0 <= i < k ==> is_white_space(#[trigger] s[i]),
        k == s.len() || !is_white_space(s[k]),
    ensures
        leading_space(s) == k,
    decreases k,
{
    if k > 0 {
        let t = s.drop_first();
        assert forall|i: int| 0 <= i < k - 1 implies is_white_space(#[trigger] t[i]) by {
            assert(t[i] == s[i + 1]);
            assert(is_white_space(s[i + 1]));
        }
        if k < s.len() {
            assert(t[k - 1] == s[k]);
        }
        assert(is_white_space(s[0]));
        lemma_leading_space(t, k - 1);
    }
}

proof fn lemma_trailing_space(s: Seq<char>, k: int)
    requires
        0 <= k <= s.len(),
        forall|i: int| s.len() - k <= i < s.len() ==> is_white_space(#[trigger] s[i]),
        k == s.len() || !is_white_space(s[s.len() - k - 1]),
    ensures
        trailing_space(s) == k,
    decreases k,
{
    if k > 0 {
        let t = s.drop_last();
        assert forall|i: int| t.len() - (k - 1) <= i < t.len() implies is_white_space(
            #[trigger] t[i],
        ) by {
            assert(t[i] == s[i]);
        }
        if k < s.len() {
            assert(t[t.len() - (k - 1) - 1] == s[s.len() - k - 1]);
        }
        assert(is_white_space(s[s.len() - 1]));
        lemma_trailing_space(t, k - 1);
    }
}

proof fn lemma_plus_index(s: Seq<char>, k: int)
    requires
        0 <= k <= s.len(),
        forall|i: int| 0 <= i < k ==> s[i] != '+',
        k == s.len() || s[k] == '+',
    ensures
        plus_index(s) == k,
    decreases k,
{
    if k > 0 {
        let t = s.drop_first();
        assert forall|i: int| 0 <= i < k - 1 implies t[i] != '+' by {
            assert(t[i] == s[i + 1]);
        }
        if k < s.len() {
            assert(t[k - 1] == s[k]);
        }
        assert(s[0] != '+');
        lemma_plus_index(t, k - 1);
    }
}

/// The bounds of `chars[from..to]` without white space at either end.
fn trim_range(chars: &Vec<char>, from: usize, to: usize) -> (r: (usize, usize))
    requires
        from <= to <= chars@.len(),
    ensures
        from <= r.0 <= r.1 <= to,
        chars@.subrange(r.0 as int, r.1 as int) == trim(chars@.subrange(from as int, to as int)),
{
    let ghost s = chars@.subrange(from as int, to as int);
    let mut a = from;
    while a < to && char_is_whitespace(chars[a])
        invariant
            from <= a <= to,
            to <= chars@.len(),
            s == chars@.subrange(from as int, to as int),
            forall|i: int| from <= i < a ==> is_white_space(#[trigger] chars@[i]),
        decreases to - a,
    {
        a = a + 1;
    }
    proof {
        assert forall|i: int| 0 <= i < a - from implies is_white_space(#[trigger] s[i]) by {
            assert(s[i] == chars@[from + i]);
        }
        if a < to {
            assert(s[a - from] == chars@[a as int]);
        }
        lemma_leading_space(s, a - from);
    }
    if a == to {
        assert(chars@.subrange(a as int, a as int) =~= Seq::<char>::empty());
        return (a, a);
    }
    let mut b = to;
    while b > a && char_is_whitespace(chars[b - 1])
        invariant
            a < to,
            a <= b <= to,
            to <= chars@.len(),
            !is_white_space(chars@[a as int]),
            forall|i: int| b <= i < to ==> is_white_space(#[trigger] chars@[i]),
        decreases b,
    {
        b = b - 1;
    }
    proof {
        assert(b > a);
        assert forall|i: int| s.len() - (to - b) <= i < s.len() implies is_white_space(
            #[trigger] s[i],
        ) by {
            assert(s[i] == chars@[from + i]);
        }
        assert(s[s.len() - (to - b) - 1] == chars@[b - 1]);
        lemma_trailing_space(s, to - b);
        assert(chars@.subrange(a as int, b as int) =~= s.subrange(
            leading_space(s) as int,
            s.len() - trailing_space(s),
        ));
    }
    (a, b)
}

/// Parses `chars[from..to]` as a decimal `i64`.
fn parse_i64_range(chars: &Vec<char>, from: usize, to: usize) -> (r: Result<i64, IntErrorKind>)
    requires
        from <= to <= chars@.len(),
    ensures
        match parse_i64_spec(chars@.subrange(from as int, to as int)) {
            Ok(v) => r matches Ok(x) && x as int == v,
            Err(k) => r == Err::<i64, IntErrorKind>(k),
        },
{
    let ghost text = chars@.subrange(from as int, to as int);
    if from == to {
        return Err(IntErrorKind::Empty);
    }
    let first = chars[from];
    if (first == '+' || first == '-') && to - from == 1 {
        return Err(IntErrorKind::InvalidDigit);
    }
    let negative = first == '-';
    let start = if first == '+' || first == '-' {
        from + 1
    } else {
        from
    };
    assert(text[0] == first);
    let ghost digits = chars@.subrange(start as int, to as int);
    assert(first == '+' || first == '-' ==> digits =~= text.drop_first());
    assert(!(first == '+' || first == '-') ==> digits =~= text);
    assert(parse_i64_spec(text) == scan_digits(digits, 0, negative));
    let mut acc: i64 = 0;
    let mut i = start;
    while i < to
        invariant
            start <= i <= to,
            to <= chars@.len(),
            digits == chars@.subrange(start as int, to as int),
            text == chars@.subrange(from as int, to as int),
            parse_i64_spec(text) == scan_digits(digits, 0, negative),
            !negative ==> acc >= 0,
            negative ==> acc <= 0,
            scan_digits(digits, 0, negative) == scan_digits(
                chars@.subrange(i as int, to as int),
                acc as int,
                negative,
            ),
        decreases to - i,
    {
        let ghost rest = chars@.subrange(i as int, to as int);
        assert(rest[0] == chars@[i as int]);
        assert(rest.drop_first() =~= chars@.subrange(i + 1, to as int));
        let c = chars[i];
        if !('0' <= c && c <= '9') {
            return Err(IntErrorKind::InvalidDigit);
        }
        let d = (c as u32 - '0' as u32) as i64;
        assert(d == digit_value(c));
        if negative {
            match acc.checked_mul(10) {
                Some(m) => match m.checked_sub(d) {
                    Some(n) => {
                        acc = n;
                    },
                    None => {
                        return Err(IntErrorKind::NegOverflow);
                    },
                },
                None => {
                    assert(!in_i64(acc * 10 - d)) by (nonlinear_arith)
                        requires
                            !in_i64(acc * 10),
                            0 <= d <= 9,
                            acc <= 0,
                    ;
                    return Err(IntErrorKind::NegOverflow);
                },
            }
        } else {
            match acc.checked_mul(10) {
                Some(m) => match m.checked_add(d) {
                    Some(n) => {
                        acc = n;
                    },
                    None => {
                        return Err(IntErrorKind::PosOverflow);
                    },
                },
                None => {
                    assert(!in_i64(acc * 10 + d)) by (nonlinear_arith)
                        requires
                            !in_i64(acc * 10),
                            0 <= d <= 9,
                            acc >= 0,
                    ;
                    return Err(IntErrorKind::PosOverflow);
                },
            }
        }
        i = i + 1;
    }
    assert(chars@.subrange(i as int, to as int).len() == 0);
    Ok(acc)
}

/// Appends the decimal digits of `n` to `out`.
fn push_decimal_digits(out: &mut Vec<u8>, n: u64)
    ensures
        final(out)@.len() == old(out)@.len() + decimal_digits(n as nat).len(),
        final(out)@.subrange(0, old(out)@.len() as int) == old(out)@,
        forall|i: int|
            0 <= i < decimal_digits(n as nat).len() ==> final(out)@[old(out)@.len() + i]
                == decimal_digits(n as nat)[i] as u8,
        is_ascii_chars(decimal_digits(n as nat)),
    decreases n,
{
    let ghost start = out@;
    if n >= 10 {
        push_decimal_digits(out, n / 10);
    }
    let ghost middle = out@;
    out.push(48 + (n % 10) as u8);
    proof {
        let ds = decimal_digits(n as nat);
        if n >= 10 {
            let prefix = decimal_digits((n / 10) as nat);
            assert(ds == prefix + seq![('0' as int + n % 10) as char]);
            assert forall|i: int| 0 <= i < ds.len() implies out@[start.len() + i] == ds[i] as u8 by {
                if i < prefix.len() {
                    assert(ds[i] == prefix[i]);
                    assert(out@[start.len() + i] == middle[start.len() + i]);
                }
            }
            assert(out@.subrange(0, start.len() as int) =~= middle.subrange(0, start.len() as int));
            assert forall|i: int| 0 <= i < ds.len() implies '\0' <= #[trigger] ds[i] <= '\u{7f}' by {
                if i < prefix.len() {
                    assert(ds[i] == prefix[i]);
                }
            }
        } else {
            assert(out@.subrange(0, start.len() as int) =~= start);
        }
    }
}

/// Decimal text of a `u64`.
pub fn format_u64(v: u64) -> (s: String)
    ensures
        s@ == decimal_digits(v as nat),
{
    let mut bytes: Vec<u8> = Vec::new();
    push_decimal_digits(&mut bytes, v);
    let ghost text = decimal_digits(v as nat);
    proof {
        vstd::utf8::is_ascii_chars_encode_utf8(text);
        assert(bytes@ =~= encode_utf8(text)) by {
            assert forall|i: int| 0 <= i < bytes@.len() implies bytes@[i] == encode_utf8(text)[i] by {
                assert(text[i] as u8 == encode_utf8(text)[i]);
                assert(bytes@[i] == text[i] as u8);
            }
        }
    }
    string_from_encoding(bytes, Ghost(text))
}

/// Decimal text of an `i64`.
pub fn format_i64(v: i64) -> (s: String)
    ensures
        s@ == decimal_text(v as int),
{
    let mut bytes: Vec<u8> = Vec::new();
    let magnitude: u64 = if v < 0 {
        bytes.push(45);
        ((-(v + 1)) as u64) + 1
    } else {
        v as u64
    };
    let ghost prefix = bytes@;
    push_decimal_digits(&mut bytes, magnitude);
    let ghost text = decimal_text(v as int);
    proof {
        let ds = decimal_digits(magnitude as nat);
        if v < 0 {
            assert(text == seq!['-'] + ds);
            assert forall|i: int| 0 <= i < text.len() implies '\0' <= #[trigger] text[i] <= '\u{7f}' by {
                if i > 0 {
                    assert(text[i] == ds[i - 1]);
                }
            }
        } else {
            assert(text == ds);
        }
        vstd::utf8::is_ascii_chars_encode_utf8(text);
        assert(bytes@ =~= encode_utf8(text)) by {
            assert forall|i: int| 0 <= i < bytes@.len() implies bytes@[i] == encode_utf8(text)[i] by {
                assert(text[i] as u8 == encode_utf8(text)[i]);
                if v < 0 {
                    if i > 0 {
                        assert(text[i] == ds[i - 1]);
                        assert(bytes@[i] == ds[i - 1] as u8);
                    }
                } else {
                    assert(bytes@[i] == ds[i] as u8);
                }
            }
        }
    }
    string_from_encoding(bytes, Ghost(text))
}

/// Parses `a+b+c` sums of `i64` values into the decimal text of the sum.
///
/// Fails when the input is blank, when a part between `+` signs is blank,
/// when a part is not an `i64`, and when the sum leaves `i64`.
pub fn parse(input: &str) -> (r: Result<String, ParseError>)
    ensures
        parse_spec(input@) matches Ok(v) ==> (r matches Ok(s) && s@ == decimal_text(v)),
        parse_spec(input@) matches Err(m) ==> (r matches Err(e) && e.detail() == m),
{
    let chars = crate::descriptor::chars_of(input);
    let n = chars.len();
    let (start, end) = trim_range(&chars, 0, n);
    assert(chars@.subrange(0, n as int) =~= input@);
    if start == end {
        return Err(ParseError::Generic("input is empty".to_owned()));
    }
    let ghost t = chars@.subrange(start as int, end as int);
    let mut pos = start;
    let mut total: i64 = 0;
    assert(t.skip(0) =~= t);
    loop
        invariant
            start <= pos <= end,
            end <= chars@.len(),
            chars@ == input@,
            t == chars@.subrange(start as int, end as int),
            parse_spec(input@) == sum_parts(chars@.subrange(pos as int, end as int), total as int),
        decreases end - pos,
    {
        let ghost s = chars@.subrange(pos as int, end as int);
        let mut cut = pos;
        while cut < end && chars[cut] != '+'
            invariant
                pos <= cut <= end,
                end <= chars@.len(),
                forall|i: int| pos <= i < cut ==> chars@[i] != '+',
            decreases end - cut,
        {
            cut = cut + 1;
        }
        proof {
            assert forall|i: int| 0 <= i < cut - pos implies s[i] != '+' by {
                assert(s[i] == chars@[pos + i]);
            }
            if cut < end {
                assert(s[cut - pos] == chars@[cut as int]);
            }
            lemma_plus_index(s, cut - pos);
            assert(s.take(cut - pos) =~= chars@.subrange(pos as int, cut as int));
        }
        let (a, b) = trim_range(&chars, pos, cut);
        if a == b {
            return Err(ParseError::Generic("expected a number between '+' operators".to_owned()));
        }
        let number = input.substring_char(a, b);
        let value = match parse_i64_range(&chars, a, b) {
            Ok(value) => value,
            Err(kind) => {
                let head = concat_str("invalid integer `", number);
                let with_tick = concat_str(head.as_str(), "`: ");
                let message = concat_str(with_tick.as_str(), int_error_message(kind));
                return Err(ParseError::Generic(message));
            },
        };
        total = match total.checked_add(value) {
            Some(sum) => sum,
            None => {
                assert(number@ == trim(s.take(plus_index(s) as int)));
                assert(parse_i64_spec(number@) == Ok::<int, IntErrorKind>(value as int));
                assert(!in_i64(total + value));
                assert(sum_parts(s, total as int) == Err::<int, Seq<char>>(overflow_text(number@)));
                let head = concat_str("integer overflow while summing expression near `", number);
                let message = concat_str(head.as_str(), "`");
                return Err(ParseError::Generic(message));
            },
        };
        if cut >= end {
            return Ok(format_i64(total));
        }
        assert(s.skip(cut - pos + 1) =~= chars@.subrange(cut + 1, end as int));
        pos = cut + 1;
    }
}

/// How an integer error reads.
fn int_error_message(kind: IntErrorKind) -> (s: &'static str)
    ensures
        s@ == int_error_text(kind),
{
    match kind {
        IntErrorKind::Empty => "cannot parse integer from empty string",
        IntErrorKind::InvalidDigit => "invalid digit found in string",
        IntErrorKind::PosOverflow => "number too large to fit in target type",
        IntErrorKind::NegOverflow => "number too small to fit in target type",
    }
}

} // verus!

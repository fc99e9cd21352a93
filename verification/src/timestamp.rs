//! Strict `YYYY-MM-DDTHH:MM:SSZ` timestamps as the descriptor validity window
//! uses them, converted to Unix seconds.

use vstd::prelude::*;
use vstd::utf8::encode_utf8;

use crate::error::{ApiError, ApiResult};

verus! {

/// Whether a byte is an ASCII decimal digit.
pub open spec fn is_digit(b: u8) -> bool {
    48 <= b <= 57
}

/// Whether every byte is an ASCII decimal digit.
pub open spec fn all_digits(bytes: Seq<u8>) -> bool {
    forall|i: int| 0 <= i < bytes.len() ==> is_digit(#[trigger] bytes[i])
}

/// Decimal value of a digit string.
pub open spec fn digits_value(bytes: Seq<u8>) -> int
    decreases bytes.len(),
{
    if bytes.len() == 0 {
        0
    } else {
        digits_value(bytes.drop_last()) * 10 + (bytes.last() - 48)
    }
}

/// Whether `year` is a Gregorian leap year.
pub open spec fn leap_year(year: int) -> bool {
    year % 4 == 0 && (year % 100 != 0 || year % 400 == 0)
}

/// Number of days in a month of a year (zero for a month out of range).
pub open spec fn month_days(year: int, month: int) -> int {
    if month == 1 || month == 3 || month == 5 || month == 7 || month == 8 || month == 10 || month
        == 12 {
        31
    } else if month == 4 || month == 6 || month == 9 || month == 11 {
        30
    } else if month == 2 {
        if leap_year(year) {
            29
        } else {
            28
        }
    } else {
        0
    }
}

/// Whether the fields name a real date and time from 1970 on.
pub open spec fn date_time_valid(
    year: int,
    month: int,
    day: int,
    hour: int,
    minute: int,
    second: int,
) -> bool {
    year >= 1970 && 1 <= month <= 12 && 1 <= day <= month_days(year, month) && hour <= 23 && minute
        <= 59 && second <= 59
}

/// Days from 1970-01-01 to the given civil date (proleptic Gregorian).
pub open spec fn civil_days(year: int, month: int, day: int) -> int {
    let y = year - if month <= 2 {
        1int
    } else {
        0int
    };
    let era = y / 400;
    let year_of_era = y - era * 400;
    let month_prime = month + if month > 2 {
        -3int
    } else {
        9int
    };
    let day_of_year = (153 * month_prime + 2) / 5 + day - 1;
    let day_of_era = year_of_era * 365 + year_of_era / 4 - year_of_era / 100 + day_of_year;
    era * 146097 + day_of_era - 719468
}

/// Whether the bytes have the `YYYY-MM-DDTHH:MM:SSZ` shape.
pub open spec fn timestamp_shape(b: Seq<u8>) -> bool {
    b.len() == 20 && b[4] == 45 && b[7] == 45 && b[10] == 84 && b[13] == 58 && b[16] == 58 && b[19]
        == 90
}

/// Whether every numeric field of a shaped timestamp is made of digits.
pub open spec fn timestamp_digits(b: Seq<u8>) -> bool {
    all_digits(b.subrange(0, 4)) && all_digits(b.subrange(5, 7)) && all_digits(b.subrange(8, 10))
        && all_digits(b.subrange(11, 13)) && all_digits(b.subrange(14, 16)) && all_digits(
        b.subrange(17, 19),
    )
}

/// Unix seconds of a date and time given field by field.
pub open spec fn field_seconds(
    year: int,
    month: int,
    day: int,
    hour: int,
    minute: int,
    second: int,
) -> int {
    civil_days(year, month, day) * 86400 + hour * 3600 + minute * 60 + second
}

/// Unix seconds of a shaped, all-digit timestamp.
pub open spec fn timestamp_seconds(b: Seq<u8>) -> int {
    field_seconds(
        digits_value(b.subrange(0, 4)),
        digits_value(b.subrange(5, 7)),
        digits_value(b.subrange(8, 10)),
        digits_value(b.subrange(11, 13)),
        digits_value(b.subrange(14, 16)),
        digits_value(b.subrange(17, 19)),
    )
}

/// Whether the fields of a shaped, all-digit timestamp form a valid date-time.
pub open spec fn timestamp_fields_valid(b: Seq<u8>) -> bool {
    date_time_valid(
        digits_value(b.subrange(0, 4)),
        digits_value(b.subrange(5, 7)),
        digits_value(b.subrange(8, 10)),
        digits_value(b.subrange(11, 13)),
        digits_value(b.subrange(14, 16)),
        digits_value(b.subrange(17, 19)),
    )
}

/// What parsing a descriptor timestamp returns.
pub open spec fn parse_timestamp_spec(value: Seq<char>) -> ApiResult<u64> {
    let b = encode_utf8(value);
    if !timestamp_shape(b) {
        Err(ApiError::InvalidServiceDescriptor("descriptor timestamps must use YYYY-MM-DDTHH:MM:SSZ"))
    } else if !timestamp_digits(b) {
        Err(ApiError::InvalidServiceDescriptor("descriptor timestamp contains non-digit characters"))
    } else if !timestamp_fields_valid(b) {
        Err(ApiError::InvalidServiceDescriptor("descriptor timestamp has invalid date or time fields"))
    } else {
        Ok(timestamp_seconds(b) as u64)
    }
}

/// Parses a run of ASCII digits as a decimal `u32`.
///
/// Fails with the non-digit error when a byte is not a digit, and with the
/// range error when the value does not fit `u32`.
fn parse_digits(bytes: &[u8]) -> (r: ApiResult<u32>)
    ensures
        all_digits(bytes@) && digits_value(bytes@) <= u32::MAX ==> r == Ok::<u32, ApiError>(
            digits_value(bytes@) as u32,
        ),
        !all_digits(bytes@) ==> r == Err::<u32, ApiError>(
            ApiError::InvalidServiceDescriptor("descriptor timestamp contains non-digit characters"),
        ),
        r is Ok ==> all_digits(bytes@),
{
    let mut value: u32 = 0;
    let mut i: usize = 0;
    let mut overflow = false;
    while i < bytes.len()
        invariant
            i <= bytes@.len(),
            all_digits(bytes@.subrange(0, i as int)),
            !overflow ==> value == digits_value(bytes@.subrange(0, i as int)),
            overflow ==> digits_value(bytes@.subrange(0, i as int)) > u32::MAX,
        decreases bytes@.len() - i,
    {
        let byte = bytes[i];
        if !(48 <= byte && byte <= 57) {
            assert(!all_digits(bytes@)) by {
                assert(!is_digit(bytes@[i as int]));
            }
            return Err(
                ApiError::InvalidServiceDescriptor(
                    "descriptor timestamp contains non-digit characters",
                ),
            );
        }
        let ghost prefix = bytes@.subrange(0, i as int);
        let ghost next = bytes@.subrange(0, i + 1);
        assert(next.drop_last() =~= prefix);
        assert(next.last() == byte);
        if !overflow {
            match value.checked_mul(10) {
                Some(times) => match times.checked_add((byte - 48) as u32) {
                    Some(sum) => {
                        value = sum;
                    },
                    None => {
                        overflow = true;
                    },
                },
                None => {
                    overflow = true;
                },
            }
        }
        assert(all_digits(next)) by {
            assert forall|j: int| 0 <= j < next.len() implies is_digit(#[trigger] next[j]) by {
                if j < i {
                    assert(next[j] == prefix[j]);
                }
            }
        }
        i = i + 1;
    }
    assert(bytes@.subrange(0, bytes@.len() as int) =~= bytes@);
    if overflow {
        return Err(ApiError::InvalidServiceDescriptor("descriptor timestamp is out of range"));
    }
    Ok(value)
}

/// Number of days in a month of a year (zero for a month out of range).
fn days_in_month(year: u32, month: u32) -> (d: u32)
    ensures
        d == month_days(year as int, month as int),
{
    match month {
        1 | 3 | 5 | 7 | 8 | 10 | 12 => 31,
        4 | 6 | 9 | 11 => 30,
        2 => if is_leap_year(year) {
            29
        } else {
            28
        },
        _ => 0,
    }
}

/// Whether `year` is a Gregorian leap year.
fn is_leap_year(year: u32) -> (b: bool)
    ensures
        b == leap_year(year as int),
{
    year % 4 == 0 && (year % 100 != 0 || year % 400 == 0)
}

fn validate_date_time(
    year: u32,
    month: u32,
    day: u32,
    hour: u32,
    minute: u32,
    second: u32,
) -> (r: ApiResult<()>)
    ensures
        r is Ok <==> date_time_valid(
            year as int,
            month as int,
            day as int,
            hour as int,
            minute as int,
            second as int,
        ),
        r is Err ==> r == Err::<(), ApiError>(
            ApiError::InvalidServiceDescriptor(
                "descriptor timestamp has invalid date or time fields",
            ),
        ),
{
    if year < 1970 || !(1 <= month && month <= 12) || day == 0 || day > days_in_month(year, month)
        || hour > 23 || minute > 59 || second > 59 {
        return Err(
            ApiError::InvalidServiceDescriptor(
                "descriptor timestamp has invalid date or time fields",
            ),
        );
    }
    Ok(())
}

/// Days from 1970-01-01 to a civil date.
fn days_from_civil(year: i64, month: i64, day: i64) -> (days: i64)
    requires
        1 <= year <= 10000,
        1 <= month <= 12,
        1 <= day <= 31,
    ensures
        days == civil_days(year as int, month as int, day as int),
{
    let year = year - if month <= 2 {
        1
    } else {
        0
    };
    let era = year / 400;
    let year_of_era = year - era * 400;
    let month_prime = month + if month > 2 {
        -3
    } else {
        9
    };
    let day_of_year = (153 * month_prime + 2) / 5 + day - 1;
    let day_of_era = year_of_era * 365 + year_of_era / 4 - year_of_era / 100 + day_of_year;
    era * 146097 + day_of_era - 719468
}

/// Parses the digits of `bytes[start..end]`, a field of at most four bytes.
fn parse_field(bytes: &[u8], start: usize, end: usize) -> (r: ApiResult<u32>)
    requires
        start <= end <= bytes@.len(),
        end - start <= 4,
    ensures
        all_digits(bytes@.subrange(start as int, end as int)) ==> r == Ok::<u32, ApiError>(
            digits_value(bytes@.subrange(start as int, end as int)) as u32,
        ),
        !all_digits(bytes@.subrange(start as int, end as int)) ==> r == Err::<u32, ApiError>(
            ApiError::InvalidServiceDescriptor("descriptor timestamp contains non-digit characters"),
        ),
        all_digits(bytes@.subrange(start as int, end as int)) ==> 0 <= digits_value(
            bytes@.subrange(start as int, end as int),
        ) < 10000,
{
    let field = slice_range(bytes, start, end);
    proof {
        if all_digits(field@) {
            lemma_digits_value_bound_len(field@);
        }
    }
    parse_digits(field)
}

/// The sub-slice `bytes[start..end]`.
fn slice_range(bytes: &[u8], start: usize, end: usize) -> (r: &[u8])
    requires
        start <= end <= bytes@.len(),
    ensures
        r@ == bytes@.subrange(start as int, end as int),
{
    &bytes[start..end]
}

proof fn lemma_digits_value_bound_len(bytes: Seq<u8>)
    requires
        all_digits(bytes),
        bytes.len() <= 4,
    ensures
        0 <= digits_value(bytes) < 10000,
    decreases bytes.len(),
{
    if bytes.len() > 0 {
        let p = bytes.drop_last();
        assert(all_digits(p)) by {
            assert forall|i: int| 0 <= i < p.len() implies is_digit(#[trigger] p[i]) by {
                assert(p[i] == bytes[i]);
            }
        }
        assert(is_digit(bytes[bytes.len() - 1]));
        lemma_digits_value_bound_len(p);
        if bytes.len() <= 3 {
            lemma_digits_value_small(bytes);
        } else {
            lemma_digits_value_small(p);
        }
    }
}

proof fn lemma_digits_value_small(bytes: Seq<u8>)
    requires
        all_digits(bytes),
        bytes.len() <= 3,
    ensures
        0 <= digits_value(bytes) < 1000,
        bytes.len() <= 2 ==> digits_value(bytes) < 100,
        bytes.len() <= 1 ==> digits_value(bytes) < 10,
    decreases bytes.len(),
{
    if bytes.len() > 0 {
        let p = bytes.drop_last();
        assert(all_digits(p)) by {
            assert forall|i: int| 0 <= i < p.len() implies is_digit(#[trigger] p[i]) by {
                assert(p[i] == bytes[i]);
            }
        }
        assert(is_digit(bytes[bytes.len() - 1]));
        lemma_digits_value_small(p);
    }
}

/// Parses a `YYYY-MM-DDTHH:MM:SSZ` UTC timestamp into Unix seconds.
pub fn parse_rfc3339_utc_seconds(value: &str) -> (r: ApiResult<u64>)
    ensures
        r == parse_timestamp_spec(value@),
{
    let bytes = value.as_bytes();
    let ghost b = bytes@;
    assert(b == encode_utf8(value@));
    if bytes.len() != 20 || bytes[4] != 45 || bytes[7] != 45 || bytes[10] != 84 || bytes[13] != 58
        || bytes[16] != 58 || bytes[19] != 90 {
        return Err(
            ApiError::InvalidServiceDescriptor(
                "descriptor timestamps must use YYYY-MM-DDTHH:MM:SSZ",
            ),
        );
    }
    let year = match parse_field(bytes, 0, 4) {
        Ok(v) => v,
        Err(e) => return Err(e),
    };
    let month = match parse_field(bytes, 5, 7) {
        Ok(v) => v,
        Err(e) => return Err(e),
    };
    let day = match parse_field(bytes, 8, 10) {
        Ok(v) => v,
        Err(e) => return Err(e),
    };
    let hour = match parse_field(bytes, 11, 13) {
        Ok(v) => v,
        Err(e) => return Err(e),
    };
    let minute = match parse_field(bytes, 14, 16) {
        Ok(v) => v,
        Err(e) => return Err(e),
    };
    let second = match parse_field(bytes, 17, 19) {
        Ok(v) => v,
        Err(e) => return Err(e),
    };
    assert(timestamp_digits(b));
    assert(year as int == digits_value(b.subrange(0, 4)) && year < 10000);
    assert(month as int == digits_value(b.subrange(5, 7)) && month < 10000);
    assert(day as int == digits_value(b.subrange(8, 10)) && day < 10000);
    assert(hour as int == digits_value(b.subrange(11, 13)) && hour < 10000);
    assert(minute as int == digits_value(b.subrange(14, 16)) && minute < 10000);
    assert(second as int == digits_value(b.subrange(17, 19)) && second < 10000);
    seconds_from_fields(year, month, day, hour, minute, second)
}

/// Unix seconds of validated date and time fields.
fn seconds_from_fields(
    year: u32,
    month: u32,
    day: u32,
    hour: u32,
    minute: u32,
    second: u32,
) -> (r: ApiResult<u64>)
    requires
        year < 10000,
        month < 10000,
        day < 10000,
        hour < 10000,
        minute < 10000,
        second < 10000,
    ensures
        date_time_valid(year as int, month as int, day as int, hour as int, minute as int, second as int)
            ==> r == Ok::<u64, ApiError>(
            field_seconds(year as int, month as int, day as int, hour as int, minute as int, second as int) as u64,
        ),
        !date_time_valid(year as int, month as int, day as int, hour as int, minute as int, second as int)
            ==> r == Err::<u64, ApiError>(
            ApiError::InvalidServiceDescriptor("descriptor timestamp has invalid date or time fields"),
        ),
{
    match validate_date_time(year, month, day, hour, minute, second) {
        Ok(()) => {},
        Err(e) => return Err(e),
    }
    let days = days_from_civil(year as i64, month as i64, day as i64);
    proof {
        lemma_civil_days_bounds(year as int, month as int, day as int);
    }
    let seconds = days * 86400 + (hour as i64) * 3600 + (minute as i64) * 60 + (second as i64);
    Ok(seconds as u64)
}

proof fn lemma_civil_days_bounds(year: int, month: int, day: int)
    requires
        1970 <= year < 10000,
        1 <= month <= 12,
        1 <= day <= 31,
    ensures
        0 <= civil_days(year, month, day) <= 3000000,
{
    let y = year - if month <= 2 {
        1int
    } else {
        0int
    };
    let era = y / 400;
    assert(4 <= era <= 24);
    let year_of_era = y - era * 400;
    assert(0 <= year_of_era < 400);
    assert(civil_days(1970, 1, 1) == 0);
}

/// The UTF-8 encoding of ASCII characters is their code points, one byte
/// each.
pub proof fn lemma_encode_ascii(s: Seq<char>)
    requires
        forall|i: int| 0 <= i < s.len() ==> (#[trigger] s[i] as u32) < 128,
    ensures
        encode_utf8(s) == Seq::new(s.len(), |i: int| (s[i] as u32) as u8),
    decreases s.len(),
{
    if s.len() > 0 {
        let c: u32 = s[0] as u32;
        assert(c < 128);
        assert(((c & 0x7F) as u8) == (c as u8)) by (bit_vector)
            requires
                c < 128,
        ;
        let rest = s.drop_first();
        assert forall|i: int| 0 <= i < rest.len() implies (#[trigger] rest[i] as u32) < 128 by {
            assert(rest[i] == s[i + 1]);
        }
        lemma_encode_ascii(rest);
        assert(vstd::utf8::encode_scalar(c) == seq![(c as u8)]);
        assert(encode_utf8(s) =~= Seq::new(s.len(), |i: int| (s[i] as u32) as u8));
    }
}

/// The Unix seconds of midnight starting January 1st of `year`, written as
/// `YYYY-01-01T00:00:00Z` with the year's digits `a`, `b`, `c`, `d`.
pub proof fn lemma_parse_new_year(a: u8, b: u8, c: u8, d: u8)
    requires
        is_digit(a),
        is_digit(b),
        is_digit(c),
        is_digit(d),
        (a - 48) * 1000 + (b - 48) * 100 + (c - 48) * 10 + (d - 48) >= 1970,
    ensures
        ({
            let year = (a - 48) * 1000 + (b - 48) * 100 + (c - 48) * 10 + (d - 48);
            let text = seq![
                a as char, b as char, c as char, d as char, '-', '0', '1', '-', '0', '1', 'T',
                '0', '0', ':', '0', '0', ':', '0', '0', 'Z',
            ];
            parse_timestamp_spec(text) == Ok::<u64, ApiError>((civil_days(year, 1, 1) * 86400) as u64)
        }),
{
    let year = (a - 48) * 1000 + (b - 48) * 100 + (c - 48) * 10 + (d - 48);
    let text = seq![
        a as char, b as char, c as char, d as char, '-', '0', '1', '-', '0', '1', 'T', '0', '0',
        ':', '0', '0', ':', '0', '0', 'Z',
    ];
    assert forall|i: int| 0 <= i < text.len() implies (#[trigger] text[i] as u32) < 128 by {}
    lemma_encode_ascii(text);
    let bytes = encode_utf8(text);
    assert(bytes =~= seq![
        a, b, c, d, 45u8, 48u8, 49u8, 45u8, 48u8, 49u8, 84u8, 48u8, 48u8, 58u8, 48u8, 48u8, 58u8,
        48u8, 48u8, 90u8,
    ]);
    assert(timestamp_shape(bytes));
    assert(bytes.subrange(0, 4) =~= seq![a, b, c, d]);
    assert(bytes.subrange(5, 7) =~= seq![48u8, 49u8]);
    assert(bytes.subrange(8, 10) =~= seq![48u8, 49u8]);
    assert(bytes.subrange(11, 13) =~= seq![48u8, 48u8]);
    assert(bytes.subrange(14, 16) =~= seq![48u8, 48u8]);
    assert(bytes.subrange(17, 19) =~= seq![48u8, 48u8]);
    assert(seq![a, b, c, d].drop_last() =~= seq![a, b, c]);
    assert(seq![a, b, c].drop_last() =~= seq![a, b]);
    assert(seq![a, b].drop_last() =~= seq![a]);
    assert(seq![a].drop_last() =~= Seq::<u8>::empty());
    assert(seq![48u8, 49u8].drop_last() =~= seq![48u8]);
    assert(seq![48u8, 48u8].drop_last() =~= seq![48u8]);
    assert(seq![48u8].drop_last() =~= Seq::<u8>::empty());
    assert(digits_value(Seq::<u8>::empty()) == 0);
    assert(digits_value(seq![a]) == a - 48);
    assert(digits_value(seq![a, b]) == (a - 48) * 10 + (b - 48));
    assert(digits_value(seq![a, b, c]) == (a - 48) * 100 + (b - 48) * 10 + (c - 48));
    assert(digits_value(seq![a, b, c, d]) == year);
    assert(digits_value(seq![48u8]) == 0);
    assert(digits_value(seq![48u8, 49u8]) == 1);
    assert(digits_value(seq![48u8, 48u8]) == 0);
    assert(timestamp_digits(bytes));
    assert(timestamp_fields_valid(bytes));
    lemma_civil_days_bounds(year, 1, 1);
}

/// The example window, `2024-01-01T00:00:00Z` to `2027-01-01T00:00:00Z`, is
/// ordered and holds exactly the Unix seconds from 1704067200 up to
/// 1798761600.
pub proof fn lemma_example_window(now: u64)
    ensures
        parse_timestamp_spec("2024-01-01T00:00:00Z"@) == Ok::<u64, ApiError>(1704067200u64),
        parse_timestamp_spec("2027-01-01T00:00:00Z"@) == Ok::<u64, ApiError>(1798761600u64),
        crate::descriptor_auth::window_error("2024-01-01T00:00:00Z"@, "2027-01-01T00:00:00Z"@, now)
            is None <==> 1704067200 <= now < 1798761600,
{
    reveal_strlit("2024-01-01T00:00:00Z");
    reveal_strlit("2027-01-01T00:00:00Z");
    lemma_parse_new_year(50u8, 48u8, 50u8, 52u8);
    lemma_parse_new_year(50u8, 48u8, 50u8, 55u8);
    assert(civil_days(2024, 1, 1) == 19723);
    assert(civil_days(2027, 1, 1) == 20819);
    assert(seq![
        50u8 as char, 48u8 as char, 50u8 as char, 52u8 as char, '-', '0', '1', '-', '0', '1', 'T',
        '0', '0', ':', '0', '0', ':', '0', '0', 'Z',
    ] =~= "2024-01-01T00:00:00Z"@);
    assert(seq![
        50u8 as char, 48u8 as char, 50u8 as char, 55u8 as char, '-', '0', '1', '-', '0', '1', 'T',
        '0', '0', ':', '0', '0', ':', '0', '0', 'Z',
    ] =~= "2027-01-01T00:00:00Z"@);
}

/// The Unix seconds of a timestamp that parses split into the days since
/// 1970-01-01 of its date and the seconds into that day of its time.
pub proof fn lemma_timestamp_day_and_time(value: Seq<char>)
    requires
        parse_timestamp_spec(value) is Ok,
    ensures
        ({
            let b = encode_utf8(value);
            let seconds = parse_timestamp_spec(value)->Ok_0 as int;
            let day_seconds = digits_value(b.subrange(11, 13)) * 3600 + digits_value(
                b.subrange(14, 16),
            ) * 60 + digits_value(b.subrange(17, 19));
            &&& seconds / 86400 == civil_days(
                digits_value(b.subrange(0, 4)),
                digits_value(b.subrange(5, 7)),
                digits_value(b.subrange(8, 10)),
            )
            &&& seconds % 86400 == day_seconds
        }),
{
    let b = encode_utf8(value);
    let year = digits_value(b.subrange(0, 4));
    let month = digits_value(b.subrange(5, 7));
    let day = digits_value(b.subrange(8, 10));
    let hour = digits_value(b.subrange(11, 13));
    let minute = digits_value(b.subrange(14, 16));
    let second = digits_value(b.subrange(17, 19));
    lemma_digits_value_bound_len(b.subrange(0, 4));
    assert(month_days(year, month) <= 31);
    lemma_civil_days_bounds(year, month, day);
    let days = civil_days(year, month, day);
    lemma_digits_value_small(b.subrange(11, 13));
    lemma_digits_value_small(b.subrange(14, 16));
    lemma_digits_value_small(b.subrange(17, 19));
    let r = hour * 3600 + minute * 60 + second;
    assert(0 <= r < 86400);
    assert(days * 86400 + r <= u64::MAX) by (nonlinear_arith)
        requires
            0 <= days <= 3000000,
            0 <= r < 86400,
    ;
    assert((days * 86400 + r) / 86400 == days && (days * 86400 + r) % 86400 == r) by (nonlinear_arith)
        requires
            0 <= days,
            0 <= r < 86400,
    ;
}

/// Days from the start of the proleptic year 0, counted from March, to the
/// March 1st that starts the March-based year `y`.
pub open spec fn march_year_days(y: int) -> int {
    365 * y + y / 4 - y / 100 + y / 400
}

proof fn lemma_div_shift(r: int, e: int, d: int, k: int)
    requires
        0 <= r,
        0 <= e,
        0 < d,
        k * d == 400,
    ensures
        (400 * e + r) / d == k * e + r / d,
{
    vstd::arithmetic::div_mod::lemma_fundamental_div_mod(r, d);
    let q = k * e + r / d;
    assert(q * d == 400 * e + (r / d) * d) by (nonlinear_arith)
        requires
            q == k * e + r / d,
            k * d == 400,
    ;
    assert(d * (r / d) == (r / d) * d) by (nonlinear_arith);
    vstd::arithmetic::div_mod::lemma_fundamental_div_mod_converse(400 * e + r, d, q, r % d);
}

/// `civil_days` counts whole March-based years, then the days into the
/// current one.
proof fn lemma_civil_days_by_year(year: int, month: int, day: int)
    requires
        1970 <= year,
        1 <= month <= 12,
    ensures
        ({
            let y = if month <= 2 { year - 1 } else { year };
            let month_prime = if month > 2 { month - 3 } else { month + 9 };
            civil_days(year, month, day) == march_year_days(y) + (153 * month_prime + 2) / 5 + day
                - 1 - 719468
        }),
{
    let y = if month <= 2 { year - 1 } else { year };
    let era = y / 400;
    let r = y - era * 400;
    assert(0 <= r < 400);
    assert(y == 400 * era + r);
    lemma_div_shift(r, era, 4, 100);
    lemma_div_shift(r, era, 100, 4);
    lemma_div_shift(r, era, 400, 1);
    assert(r / 400 == 0);
}

/// `y + 1` over `d` is `y` over `d`, plus one exactly when `d` divides `y + 1`.
proof fn lemma_div_step(y: int, d: int)
    requires
        0 <= y,
        0 < d,
    ensures
        (y + 1) / d == y / d + if (y + 1) % d == 0 { 1int } else { 0int },
{
    vstd::arithmetic::div_mod::lemma_fundamental_div_mod(y, d);
    let q = y / d;
    let r = y % d;
    assert(d * q == q * d) by (nonlinear_arith);
    if r == d - 1 {
        assert((q + 1) * d == q * d + d) by (nonlinear_arith);
        vstd::arithmetic::div_mod::lemma_fundamental_div_mod_converse(y + 1, d, q + 1, 0);
    } else {
        vstd::arithmetic::div_mod::lemma_fundamental_div_mod_converse(y + 1, d, q, r + 1);
    }
}

/// A multiple of 400 is a multiple of 100, and a multiple of 100 one of 4.
proof fn lemma_century_divides(x: int)
    requires
        0 <= x,
    ensures
        x % 400 == 0 ==> x % 100 == 0,
        x % 100 == 0 ==> x % 4 == 0,
{
    vstd::arithmetic::div_mod::lemma_fundamental_div_mod(x, 400);
    vstd::arithmetic::div_mod::lemma_fundamental_div_mod(x, 100);
    if x % 400 == 0 {
        let q = x / 400;
        assert(400 * q == (4 * q) * 100) by (nonlinear_arith);
        vstd::arithmetic::div_mod::lemma_fundamental_div_mod_converse(x, 100, 4 * q, 0);
    }
    if x % 100 == 0 {
        let q = x / 100;
        assert(100 * q == (25 * q) * 4) by (nonlinear_arith);
        vstd::arithmetic::div_mod::lemma_fundamental_div_mod_converse(x, 4, 25 * q, 0);
    }
}

/// A March-based year is 366 days long when the February it ends with is a
/// leap February, and 365 otherwise.
proof fn lemma_march_year_length(y: int)
    requires
        0 <= y,
    ensures
        march_year_days(y + 1) == march_year_days(y) + 365 + if leap_year(y + 1) { 1int } else { 0int },
{
    lemma_div_step(y, 4);
    lemma_div_step(y, 100);
    lemma_div_step(y, 400);
    lemma_century_divides(y + 1);
}

/// The first day of the month after (`year`, `month`) comes `month_days`
/// days after the first day of that month.
proof fn lemma_next_month_start(year: int, month: int)
    requires
        1970 <= year,
        1 <= month <= 12,
    ensures
        month < 12 ==> civil_days(year, month + 1, 1) == civil_days(year, month, 1) + month_days(
            year,
            month,
        ),
        month == 12 ==> civil_days(year + 1, 1, 1) == civil_days(year, 12, 1) + month_days(year, 12),
{
    lemma_civil_days_by_year(year, month, 1);
    if month < 12 {
        lemma_civil_days_by_year(year, month + 1, 1);
        if month == 2 {
            lemma_march_year_length(year - 1);
        }
    } else {
        lemma_civil_days_by_year(year + 1, 1, 1);
    }
}

/// Every month from 1970 on holds at least 28 days.
proof fn lemma_month_days_positive(year: int, month: int)
    requires
        1 <= month <= 12,
    ensures
        28 <= month_days(year, month) <= 31,
{
}

/// A month that starts later than (`y1`, `m1`) starts no earlier than the
/// day after that month ends.
proof fn lemma_later_month_starts_later(y1: int, m1: int, y2: int, m2: int)
    requires
        1970 <= y1,
        1 <= m1 <= 12,
        1 <= m2 <= 12,
        y1 * 12 + m1 < y2 * 12 + m2,
    ensures
        civil_days(y1, m1, 1) + month_days(y1, m1) <= civil_days(y2, m2, 1),
    decreases y2 * 12 + m2 - (y1 * 12 + m1),
{
    lemma_next_month_start(y1, m1);
    let ny = if m1 == 12 { y1 + 1 } else { y1 };
    let nm = if m1 == 12 { 1int } else { m1 + 1 };
    assert(ny * 12 + nm == y1 * 12 + m1 + 1);
    if ny * 12 + nm < y2 * 12 + m2 {
        lemma_later_month_starts_later(ny, nm, y2, m2);
        lemma_month_days_positive(ny, nm);
    } else {
        assert(ny == y2 && nm == m2);
    }
}

/// Whether the fields of `a` come before those of `b`, compared year first
/// and second last.
pub open spec fn fields_before(a: (int, int, int, int, int, int), b: (int, int, int, int, int, int)) -> bool {
    ||| a.0 < b.0
    ||| a.0 == b.0 && a.1 < b.1
    ||| a.0 == b.0 && a.1 == b.1 && a.2 < b.2
    ||| a.0 == b.0 && a.1 == b.1 && a.2 == b.2 && a.3 < b.3
    ||| a.0 == b.0 && a.1 == b.1 && a.2 == b.2 && a.3 == b.3 && a.4 < b.4
    ||| a.0 == b.0 && a.1 == b.1 && a.2 == b.2 && a.3 == b.3 && a.4 == b.4 && a.5 < b.5
}

/// Whether the fields name a real date and time from 1970 on, with no
/// negative time field.
pub open spec fn fields_valid(f: (int, int, int, int, int, int)) -> bool {
    date_time_valid(f.0, f.1, f.2, f.3, f.4, f.5) && 0 <= f.3 && 0 <= f.4 && 0 <= f.5
}

/// Unix seconds of a field tuple.
pub open spec fn fields_seconds(f: (int, int, int, int, int, int)) -> int {
    field_seconds(f.0, f.1, f.2, f.3, f.4, f.5)
}

/// Later dates and times are later instants: of two valid field tuples, the
/// one that comes first, compared year first and second last, has fewer
/// Unix seconds.
pub proof fn lemma_later_fields_later_seconds(
    a: (int, int, int, int, int, int),
    b: (int, int, int, int, int, int),
)
    requires
        fields_valid(a),
        fields_valid(b),
        fields_before(a, b),
    ensures
        fields_seconds(a) < fields_seconds(b),
{
    lemma_civil_days_by_year(a.0, a.1, a.2);
    lemma_civil_days_by_year(a.0, a.1, 1);
    lemma_civil_days_by_year(b.0, b.1, b.2);
    lemma_civil_days_by_year(b.0, b.1, 1);
    let da = civil_days(a.0, a.1, a.2);
    let db = civil_days(b.0, b.1, b.2);
    assert(da == civil_days(a.0, a.1, 1) + a.2 - 1);
    assert(db == civil_days(b.0, b.1, 1) + b.2 - 1);
    if a.0 * 12 + a.1 < b.0 * 12 + b.1 {
        lemma_later_month_starts_later(a.0, a.1, b.0, b.1);
        assert(da < db);
    } else if a.0 == b.0 && a.1 == b.1 && a.2 < b.2 {
        assert(da < db);
    } else {
        assert(a.0 == b.0 && a.1 == b.1 && a.2 == b.2);
    }
    let ta = a.3 * 3600 + a.4 * 60 + a.5;
    let tb = b.3 * 3600 + b.4 * 60 + b.5;
    assert(0 <= ta < 86400 && 0 <= tb < 86400);
    if da < db {
        assert(da * 86400 + 86400 <= db * 86400) by (nonlinear_arith)
            requires
                da < db,
        ;
    }
}

/// Whether `a` comes before `b` byte by byte: they agree up to some position
/// where `a` holds the smaller byte.
pub open spec fn bytes_before(a: Seq<u8>, b: Seq<u8>) -> bool {
    exists|k: int|
        0 <= k < a.len() && k < b.len() && a.take(k) == b.take(k) && #[trigger] a[k] < b[k]
}

/// Of two digit strings of one length that agree up to position `k`, where
/// the first holds the smaller digit, the first has the smaller value.
proof fn lemma_digits_value_before(x: Seq<u8>, y: Seq<u8>, k: int)
    requires
        all_digits(x),
        all_digits(y),
        x.len() == y.len(),
        0 <= k < x.len(),
        forall|i: int| 0 <= i < k ==> x[i] == y[i],
        x[k] < y[k],
    ensures
        digits_value(x) < digits_value(y),
    decreases x.len(),
{
    let n = x.len() - 1;
    let xp = x.drop_last();
    let yp = y.drop_last();
    assert(all_digits(xp)) by {
        assert forall|i: int| 0 <= i < xp.len() implies is_digit(#[trigger] xp[i]) by {
            assert(xp[i] == x[i]);
        }
    }
    assert(all_digits(yp)) by {
        assert forall|i: int| 0 <= i < yp.len() implies is_digit(#[trigger] yp[i]) by {
            assert(yp[i] == y[i]);
        }
    }
    assert(is_digit(x[n]) && is_digit(y[n]));
    if k == n {
        assert(xp =~= yp);
    } else {
        lemma_digits_value_before(xp, yp, k);
    }
}

/// A digit string's value is not negative.
proof fn lemma_digits_value_nonneg(x: Seq<u8>)
    requires
        all_digits(x),
    ensures
        0 <= digits_value(x),
    decreases x.len(),
{
    if x.len() > 0 {
        let xp = x.drop_last();
        assert(all_digits(xp)) by {
            assert forall|i: int| 0 <= i < xp.len() implies is_digit(#[trigger] xp[i]) by {
                assert(xp[i] == x[i]);
            }
        }
        assert(is_digit(x[x.len() - 1]));
        lemma_digits_value_nonneg(xp);
    }
}

/// The fields a parsed timestamp's bytes hold.
pub open spec fn timestamp_fields(b: Seq<u8>) -> (int, int, int, int, int, int) {
    (
        digits_value(b.subrange(0, 4)),
        digits_value(b.subrange(5, 7)),
        digits_value(b.subrange(8, 10)),
        digits_value(b.subrange(11, 13)),
        digits_value(b.subrange(14, 16)),
        digits_value(b.subrange(17, 19)),
    )
}

/// The field of a timestamp that spans `[lo, hi)` is smaller in `a` than in
/// `b` when the two first differ inside it, with `a` smaller there.
proof fn lemma_field_before(a: Seq<u8>, b: Seq<u8>, k: int, lo: int, hi: int)
    requires
        timestamp_shape(a),
        timestamp_shape(b),
        all_digits(a.subrange(lo, hi)),
        all_digits(b.subrange(lo, hi)),
        0 <= lo <= k < hi <= 19,
        a.take(k) == b.take(k),
        a[k] < b[k],
    ensures
        digits_value(a.subrange(lo, hi)) < digits_value(b.subrange(lo, hi)),
{
    let x = a.subrange(lo, hi);
    let y = b.subrange(lo, hi);
    assert forall|i: int| 0 <= i < k - lo implies x[i] == y[i] by {
        assert(x[i] == a[lo + i] && y[i] == b[lo + i]);
        assert(a.take(k)[lo + i] == a[lo + i] && b.take(k)[lo + i] == b[lo + i]);
    }
    assert(x[k - lo] == a[k] && y[k - lo] == b[k]);
    lemma_digits_value_before(x, y, k - lo);
}

/// Valid timestamps sort by their bytes as they do by time: of two that
/// parse, the one whose UTF-8 bytes come first is the earlier instant.
pub proof fn lemma_timestamp_byte_order(v1: Seq<char>, v2: Seq<char>)
    requires
        parse_timestamp_spec(v1) is Ok,
        parse_timestamp_spec(v2) is Ok,
        bytes_before(encode_utf8(v1), encode_utf8(v2)),
    ensures
        parse_timestamp_spec(v1)->Ok_0 < parse_timestamp_spec(v2)->Ok_0,
{
    let a = encode_utf8(v1);
    let b = encode_utf8(v2);
    let k = choose|k: int|
        0 <= k < a.len() && k < b.len() && a.take(k) == b.take(k) && #[trigger] a[k] < b[k];
    let fa = timestamp_fields(a);
    let fb = timestamp_fields(b);
    assert(k != 4 && k != 7 && k != 10 && k != 13 && k != 16 && k != 19);
    assert forall|lo: int, hi: int| 0 <= lo < hi <= k implies #[trigger] a.subrange(lo, hi)
        == b.subrange(lo, hi) by {
        assert(a.subrange(lo, hi) =~= b.subrange(lo, hi)) by {
            assert forall|i: int| 0 <= i < hi - lo implies a.subrange(lo, hi)[i] == b.subrange(
                lo,
                hi,
            )[i] by {
                assert(a.take(k)[lo + i] == b.take(k)[lo + i]);
            }
        }
    }
    if k < 4 {
        lemma_field_before(a, b, k, 0, 4);
    } else if k < 7 {
        assert(a.subrange(0, 4) == b.subrange(0, 4));
        lemma_field_before(a, b, k, 5, 7);
    } else if k < 10 {
        assert(a.subrange(0, 4) == b.subrange(0, 4));
        assert(a.subrange(5, 7) == b.subrange(5, 7));
        lemma_field_before(a, b, k, 8, 10);
    } else if k < 13 {
        assert(a.subrange(0, 4) == b.subrange(0, 4));
        assert(a.subrange(5, 7) == b.subrange(5, 7));
        assert(a.subrange(8, 10) == b.subrange(8, 10));
        lemma_field_before(a, b, k, 11, 13);
    } else if k < 16 {
        assert(a.subrange(0, 4) == b.subrange(0, 4));
        assert(a.subrange(5, 7) == b.subrange(5, 7));
        assert(a.subrange(8, 10) == b.subrange(8, 10));
        assert(a.subrange(11, 13) == b.subrange(11, 13));
        lemma_field_before(a, b, k, 14, 16);
    } else {
        assert(a.subrange(0, 4) == b.subrange(0, 4));
        assert(a.subrange(5, 7) == b.subrange(5, 7));
        assert(a.subrange(8, 10) == b.subrange(8, 10));
        assert(a.subrange(11, 13) == b.subrange(11, 13));
        assert(a.subrange(14, 16) == b.subrange(14, 16));
        lemma_field_before(a, b, k, 17, 19);
    }
    assert(fields_before(fa, fb));
    lemma_digits_value_nonneg(a.subrange(11, 13));
    lemma_digits_value_nonneg(a.subrange(14, 16));
    lemma_digits_value_nonneg(a.subrange(17, 19));
    lemma_digits_value_nonneg(b.subrange(11, 13));
    lemma_digits_value_nonneg(b.subrange(14, 16));
    lemma_digits_value_nonneg(b.subrange(17, 19));
    lemma_later_fields_later_seconds(fa, fb);
    lemma_timestamp_day_and_time(v1);
    lemma_timestamp_day_and_time(v2);
}

/// Of two different byte strings of one length, one comes before the
/// other, given that they agree on their first `k` bytes.
proof fn lemma_first_difference_from(a: Seq<u8>, b: Seq<u8>, k: int)
    requires
        a.len() == b.len(),
        0 <= k <= a.len(),
        a.take(k) == b.take(k),
        a != b,
    ensures
        bytes_before(a, b) || bytes_before(b, a),
    decreases a.len() - k,
{
    if k == a.len() {
        assert(a =~= a.take(k));
        assert(b =~= b.take(k));
    } else if a[k] < b[k] {
        assert(0 <= k < a.len() && k < b.len() && a.take(k) == b.take(k) && a[k] < b[k]);
    } else if b[k] < a[k] {
        assert(0 <= k < b.len() && k < a.len() && b.take(k) == a.take(k) && b[k] < a[k]);
    } else {
        assert(a.take(k + 1) =~= b.take(k + 1)) by {
            assert forall|i: int| 0 <= i < k + 1 implies #[trigger] a.take(k + 1)[i] == b.take(k + 1)[i] by {
                if i < k {
                    assert(a.take(k)[i] == b.take(k)[i]);
                }
            }
        }
        lemma_first_difference_from(a, b, k + 1);
    }
}

/// Byte order of valid timestamps is time order: of two timestamps that
/// parse, the first's bytes come before the second's exactly when it is the
/// earlier instant, and the two are the same text exactly when they are
/// the same instant.
pub proof fn lemma_timestamp_order_equivalence(v1: Seq<char>, v2: Seq<char>)
    requires
        parse_timestamp_spec(v1) is Ok,
        parse_timestamp_spec(v2) is Ok,
    ensures
        bytes_before(encode_utf8(v1), encode_utf8(v2)) <==> parse_timestamp_spec(v1)->Ok_0
            < parse_timestamp_spec(v2)->Ok_0,
        v1 == v2 <==> parse_timestamp_spec(v1)->Ok_0 == parse_timestamp_spec(v2)->Ok_0,
{
    let a = encode_utf8(v1);
    let b = encode_utf8(v2);
    let x = parse_timestamp_spec(v1)->Ok_0;
    let y = parse_timestamp_spec(v2)->Ok_0;
    if bytes_before(a, b) {
        lemma_timestamp_byte_order(v1, v2);
    }
    if bytes_before(b, a) {
        lemma_timestamp_byte_order(v2, v1);
    }
    if v1 != v2 {
        vstd::utf8::encode_utf8_decode_utf8(v1);
        vstd::utf8::encode_utf8_decode_utf8(v2);
        assert(a != b);
        assert(a.take(0) =~= b.take(0));
        lemma_first_difference_from(a, b, 0);
    }
}

} // verus!

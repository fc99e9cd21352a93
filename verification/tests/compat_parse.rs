use secure_tunnel_core::compat::{ParseError, format_i64, parse};

#[test]
fn parse_sums_basic_addition() {
    assert_eq!(parse("1+2+3").unwrap(), "6");
    assert_eq!(parse("10+20+30").unwrap(), "60");
}

#[test]
fn parse_rejects_missing_operands() {
    let error = parse("1+").unwrap_err();
    assert!(error.message().contains("expected a number"));
}

#[test]
fn parse_rejects_overflow() {
    let error = parse("9223372036854775807+1").unwrap_err();
    assert!(error.message().contains("integer overflow"));
}

#[test]
fn parse_rejects_blank_input() {
    let error = parse("  \t ").unwrap_err();
    assert_eq!(error, ParseError::Generic("input is empty".to_owned()));
    assert_eq!(error.message(), "Parse error: input is empty");
}

#[test]
fn parse_trims_parts_and_handles_negatives() {
    assert_eq!(parse("  4 + -6 +  1 ").unwrap(), "-1");
    assert_eq!(parse("-9223372036854775808").unwrap(), "-9223372036854775808");
    assert_eq!(parse("0").unwrap(), "0");
}

#[test]
fn parse_reports_invalid_integers_like_std() {
    assert_eq!(
        parse("1+x").unwrap_err(),
        ParseError::Generic("invalid integer `x`: invalid digit found in string".to_owned())
    );
    assert_eq!(
        parse("1+-").unwrap_err(),
        ParseError::Generic("invalid integer `-`: invalid digit found in string".to_owned())
    );
    assert_eq!(
        parse("99999999999999999999").unwrap_err(),
        ParseError::Generic(
            "invalid integer `99999999999999999999`: number too large to fit in target type"
                .to_owned()
        )
    );
    assert_eq!(
        parse("-99999999999999999999").unwrap_err(),
        ParseError::Generic(
            "invalid integer `-99999999999999999999`: number too small to fit in target type"
                .to_owned()
        )
    );
    assert_eq!(
        parse("1 + 2 3").unwrap_err(),
        ParseError::Generic("invalid integer `2 3`: invalid digit found in string".to_owned())
    );
}

#[test]
fn parse_reports_the_part_that_overflows() {
    assert_eq!(
        parse("-9223372036854775808 + -1").unwrap_err(),
        ParseError::Generic(
            "integer overflow while summing expression near `-1`".to_owned()
        )
    );
    assert_eq!(
        parse("+1").unwrap_err(),
        ParseError::Generic("expected a number between '+' operators".to_owned())
    );
}

#[test]
fn decimal_formatting_matches_std() {
    for value in [0_i64, 7, -7, 10, 1234567890, i64::MAX, i64::MIN, -1] {
        assert_eq!(format_i64(value), value.to_string());
    }
}

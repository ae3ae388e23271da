use ocw_worker::errors::ParseError;
use ocw_worker::parser::parse;
use ocw_worker::parser::PricePoint;

#[test]
fn truncates_to_six_fractional_digits() {
    assert_eq!(parse(b"6.1234567"), Ok(PricePoint { integer: 6, fraction: 123456 }));
}

#[test]
fn truncates_never_rounds() {
    // A seventh digit of 9 must not round the sixth up.
    assert_eq!(parse(b"6.1234569"), Ok(PricePoint { integer: 6, fraction: 123456 }));
    assert_eq!(parse(b"0.9999999"), Ok(PricePoint { integer: 0, fraction: 999999 }));
}

#[test]
fn exactly_six_digits_parse() {
    assert_eq!(parse(b"12.345678"), Ok(PricePoint { integer: 12, fraction: 345678 }));
}

#[test]
fn malformed_without_decimal_point() {
    assert_eq!(parse(b"abc"), Err(ParseError::Malformed));
    assert_eq!(parse(b"612345"), Err(ParseError::Malformed));
    assert_eq!(parse(b""), Err(ParseError::Malformed));
}

#[test]
fn malformed_with_short_fraction() {
    assert_eq!(parse(b"6.12345"), Err(ParseError::Malformed));
    assert_eq!(parse(b"6."), Err(ParseError::Malformed));
}

#[test]
fn malformed_with_empty_integer_part() {
    assert_eq!(parse(b".123456"), Err(ParseError::Malformed));
}

#[test]
fn malformed_with_non_digit_segments() {
    assert_eq!(parse(b"1a.123456"), Err(ParseError::Malformed));
    assert_eq!(parse(b"1.12x456"), Err(ParseError::Malformed));
    assert_eq!(parse(b"-1.123456"), Err(ParseError::Malformed));
    assert_eq!(parse(b"+1.123456"), Err(ParseError::Malformed));
}

#[test]
fn integer_part_at_the_top_of_the_domain() {
    assert_eq!(
        parse(b"18446744073709551615.000000"),
        Ok(PricePoint { integer: u64::MAX, fraction: 0 })
    );
    assert_eq!(parse(b"18446744073709551616.000000"), Err(ParseError::Malformed));
}

#[test]
fn second_decimal_point_closes_the_fraction() {
    // The fractional segment runs to the next point; what follows it is
    // ignored, as long as six digits were on offer.
    assert_eq!(parse(b"1.2345678.9"), Ok(PricePoint { integer: 1, fraction: 234567 }));
    assert_eq!(parse(b"1.23.456789"), Err(ParseError::Malformed));
}

#[test]
fn bytes_after_the_sixth_digit_are_ignored() {
    assert_eq!(parse(b"1.123456xyz"), Ok(PricePoint { integer: 1, fraction: 123456 }));
}

use graphql_extensions::scalars::decimal::{accepted, parse, to_value, RADIX};
use rust_decimal::Decimal;

#[test]
fn radix_is_ten() {
    assert_eq!(RADIX, 10);
}

#[test]
fn parse_reads_a_decimal_string() {
    assert_eq!(parse(Some("1.5")), Some(Decimal::new(15, 1)));
    assert_eq!(parse(Some("-42")), Some(Decimal::new(-42, 0)));
    assert_eq!(parse(Some("0.001")), Some(Decimal::new(1, 3)));
}

#[test]
fn parse_reads_digits_in_radix_ten_only() {
    assert_eq!(parse(Some("10")), Some(Decimal::new(10, 0)));
    assert_eq!(parse(Some("A")), None);
}

#[test]
fn parse_rejects_text_that_is_no_number() {
    assert_eq!(parse(Some("")), None);
    assert_eq!(parse(Some("abc")), None);
    assert_eq!(parse(Some("1.2.3")), None);
}

#[test]
fn parse_rejects_values_that_are_no_string() {
    assert_eq!(parse(None), None);
}

#[test]
fn to_value_writes_the_number() {
    assert_eq!(to_value(&Decimal::new(15, 1)), "1.5");
    assert_eq!(to_value(&Decimal::new(-42, 0)), "-42");
    assert_eq!(to_value(&Decimal::new(100, 2)), "1.00");
}

#[test]
fn to_value_and_parse_agree() {
    let number = Decimal::new(123456, 3);
    assert_eq!(parse(Some(to_value(&number).as_str())), Some(number));
}

#[test]
fn accepted_keeps_the_number_and_drops_the_reason() {
    assert_eq!(accepted(Ok(Decimal::new(7, 0))), Some(Decimal::new(7, 0)));
    assert_eq!(accepted(Err(rust_decimal::Error::Underflow)), None);
    assert_eq!(accepted(Decimal::from_str_radix("x", 10)), None);
}

use graphql_extensions::scalars::integers::{
    description, parse_i16, parse_i32, parse_i64, parse_i8, parse_u16, parse_u32, parse_u64,
    parse_u8, scalar_name,
};

#[test]
fn scalar_is_named_int() {
    assert_eq!(scalar_name(), "Int");
}

#[test]
fn scalar_describes_itself() {
    assert_eq!(
        description(),
        Some("The `Int` scalar type represents non-fractional signed whole numeric values. Int can represent values between -(2^31) and 2^31 - 1.")
    );
}

#[test]
fn values_that_are_no_integer_denote_nothing() {
    assert_eq!(parse_i8(None), None);
    assert_eq!(parse_i16(None), None);
    assert_eq!(parse_i32(None), None);
    assert_eq!(parse_i64(None), None);
    assert_eq!(parse_u8(None), None);
    assert_eq!(parse_u16(None), None);
    assert_eq!(parse_u32(None), None);
    assert_eq!(parse_u64(None), None);
}

#[test]
fn integers_in_range_are_kept() {
    assert_eq!(parse_i8(Some(-128)), Some(-128));
    assert_eq!(parse_i8(Some(127)), Some(127));
    assert_eq!(parse_i16(Some(-32768)), Some(-32768));
    assert_eq!(parse_i32(Some(2147483647)), Some(2147483647));
    assert_eq!(parse_i64(Some(i64::MIN)), Some(i64::MIN));
    assert_eq!(parse_i64(Some(i64::MAX)), Some(i64::MAX));
    assert_eq!(parse_u8(Some(255)), Some(255));
    assert_eq!(parse_u16(Some(65535)), Some(65535));
    assert_eq!(parse_u32(Some(4294967295)), Some(4294967295));
    assert_eq!(parse_u64(Some(i64::MAX)), Some(i64::MAX as u64));
    assert_eq!(parse_u64(Some(0)), Some(0));
}

#[test]
fn integers_out_of_range_wrap_around() {
    assert_eq!(parse_i8(Some(128)), Some(-128));
    assert_eq!(parse_i8(Some(300)), Some(44));
    assert_eq!(parse_i16(Some(32768)), Some(-32768));
    assert_eq!(parse_i32(Some(2147483648)), Some(-2147483648));
    assert_eq!(parse_u8(Some(256)), Some(0));
    assert_eq!(parse_u8(Some(-1)), Some(255));
    assert_eq!(parse_u16(Some(-1)), Some(65535));
    assert_eq!(parse_u32(Some(-1)), Some(4294967295));
    assert_eq!(parse_u64(Some(-1)), Some(u64::MAX));
}

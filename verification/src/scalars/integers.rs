//! The integer scalars: every integer type of the language is read from
//! the same integer values, each keeping what fits its width.

use vstd::prelude::*;

verus! {

/// The name of the integer scalar.
pub fn scalar_name() -> (name: &'static str)
    ensures
        name@ == "Int"@,
{
    "Int"
}

/// What the integer scalar says of itself.
pub fn description() -> (text: Option<&'static str>)
    ensures
        text is Some,
        text->0@
            == "The `Int` scalar type represents non-fractional signed whole numeric values. Int can represent values between -(2^31) and 2^31 - 1."@,
{
    Some(
        "The `Int` scalar type represents non-fractional signed whole numeric values. Int can represent values between -(2^31) and 2^31 - 1.",
    )
}

/// The `i8` that a value denotes. `number` is the integer of the value where
/// it is one and `None` where it is anything else. An integer within the
/// range of `i8` is kept as it is; one beyond it wraps around.
pub fn parse_i8(number: Option<i64>) -> (parsed: Option<i8>)
    ensures
        parsed == match number {
            Some(number) => Some(number as i8),
            None => None,
        },
        number is Some && i8::MIN <= number->0 <= i8::MAX ==> parsed->0 == number->0,
{
    match number {
        Some(number) => Some(
            #[verifier::truncate]
            (number as i8),
        ),
        None => None,
    }
}

/// The `i16` that a value denotes. `number` is the integer of the value where
/// it is one and `None` where it is anything else. An integer within the
/// range of `i16` is kept as it is; one beyond it wraps around.
pub fn parse_i16(number: Option<i64>) -> (parsed: Option<i16>)
    ensures
        parsed == match number {
            Some(number) => Some(number as i16),
            None => None,
        },
        number is Some && i16::MIN <= number->0 <= i16::MAX ==> parsed->0 == number->0,
{
    match number {
        Some(number) => Some(
            #[verifier::truncate]
            (number as i16),
        ),
        None => None,
    }
}

/// The `i32` that a value denotes. `number` is the integer of the value where
/// it is one and `None` where it is anything else. An integer within the
/// range of `i32` is kept as it is; one beyond it wraps around.
pub fn parse_i32(number: Option<i64>) -> (parsed: Option<i32>)
    ensures
        parsed == match number {
            Some(number) => Some(number as i32),
            None => None,
        },
        number is Some && i32::MIN <= number->0 <= i32::MAX ==> parsed->0 == number->0,
{
    match number {
        Some(number) => Some(
            #[verifier::truncate]
            (number as i32),
        ),
        None => None,
    }
}

/// The `i64` that a value denotes. `number` is the integer of the value where
/// it is one and `None` where it is anything else.
pub fn parse_i64(number: Option<i64>) -> (parsed: Option<i64>)
    ensures
        parsed == number,
{
    number
}

/// The `u8` that a value denotes. `number` is the integer of the value where
/// it is one and `None` where it is anything else. An integer within the
/// range of `u8` is kept as it is; one beyond it wraps around.
pub fn parse_u8(number: Option<i64>) -> (parsed: Option<u8>)
    ensures
        parsed == match number {
            Some(number) => Some(number as u8),
            None => None,
        },
        number is Some && u8::MIN <= number->0 <= u8::MAX ==> parsed->0 == number->0,
{
    match number {
        Some(number) => Some(
            #[verifier::truncate]
            (number as u8),
        ),
        None => None,
    }
}

/// The `u16` that a value denotes. `number` is the integer of the value where
/// it is one and `None` where it is anything else. An integer within the
/// range of `u16` is kept as it is; one beyond it wraps around.
pub fn parse_u16(number: Option<i64>) -> (parsed: Option<u16>)
    ensures
        parsed == match number {
            Some(number) => Some(number as u16),
            None => None,
        },
        number is Some && u16::MIN <= number->0 <= u16::MAX ==> parsed->0 == number->0,
{
    match number {
        Some(number) => Some(
            #[verifier::truncate]
            (number as u16),
        ),
        None => None,
    }
}

/// The `u32` that a value denotes. `number` is the integer of the value where
/// it is one and `None` where it is anything else. An integer within the
/// range of `u32` is kept as it is; one beyond it wraps around.
pub fn parse_u32(number: Option<i64>) -> (parsed: Option<u32>)
    ensures
        parsed == match number {
            Some(number) => Some(number as u32),
            None => None,
        },
        number is Some && u32::MIN <= number->0 <= u32::MAX ==> parsed->0 == number->0,
{
    match number {
        Some(number) => Some(
            #[verifier::truncate]
            (number as u32),
        ),
        None => None,
    }
}

/// The `u64` that a value denotes. `number` is the integer of the value where
/// it is one and `None` where it is anything else. An integer within the
/// range of `u64` is kept as it is; one beyond it wraps around.
pub fn parse_u64(number: Option<i64>) -> (parsed: Option<u64>)
    ensures
        parsed == match number {
            Some(number) => Some(number as u64),
            None => None,
        },
        number is Some && u64::MIN <= number->0 <= u64::MAX ==> parsed->0 == number->0,
{
    match number {
        Some(number) => Some(
            #[verifier::truncate]
            (number as u64),
        ),
        None => None,
    }
}

} // verus!

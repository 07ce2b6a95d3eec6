//! The decimal scalar: how a decimal number is read from a value of the
//! query language, and how it is written back as one.

use rust_decimal::Decimal;
use vstd::prelude::*;

verus! {

/// A decimal number. Opaque.
#[verifier::external_type_specification]
#[verifier::external_body]
pub struct ExDecimal(Decimal);

/// Why a text is no decimal number. Opaque.
#[verifier::external_type_specification]
#[verifier::external_body]
pub struct ExDecimalError(rust_decimal::Error);

/// What `Decimal::from_str_radix` makes of a text in a radix.
pub uninterp spec fn decimal_of(text: Seq<char>, radix: u32) -> Result<Decimal, rust_decimal::Error>;

/// `Decimal::from_str_radix`, in radix ten only: the number that the text
/// denotes, or the reason why it denotes none. It depends on the text and
/// the radix alone. Other radixes are left out: on some texts their parser
/// does not return.
#[verifier::external_body]
fn from_str_radix(text: &str, radix: u32) -> (parsed: Result<Decimal, rust_decimal::Error>)
    requires
        radix == 10,
    ensures
        parsed == decimal_of(text@, radix),
{
    Decimal::from_str_radix(text, radix)
}

/// What `Decimal` shows of itself as text.
pub uninterp spec fn decimal_text(number: Decimal) -> Seq<char>;

/// `ToString::to_string` on a `Decimal`: the number as text. It depends on
/// the number alone.
#[verifier::external_body]
fn to_string(number: &Decimal) -> (text: String)
    ensures
        text@ == decimal_text(*number),
{
    number.to_string()
}

/// The radix in which decimal scalars are written.
pub const RADIX: u32 = 10;

/// What the scalar makes of an attempt to read a number: the number where
/// there is one, and nothing where there is none, whatever the reason.
pub fn accepted(parsed: Result<Decimal, rust_decimal::Error>) -> (number: Option<Decimal>)
    ensures
        number == match parsed {
            Ok(number) => Some(number),
            Err(_) => None,
        },
{
    match parsed {
        Ok(number) => Some(number),
        Err(_) => None,
    }
}

/// The number that a value of the query language denotes. `text` is the
/// text of the value where it is a string and `None` where it is anything
/// else: only a string that is a number in radix ten denotes one.
pub fn parse(text: Option<&str>) -> (parsed: Option<Decimal>)
    ensures
        parsed == match text {
            Some(text) => match decimal_of(text@, RADIX) {
                Ok(number) => Some(number),
                Err(_) => None,
            },
            None => None,
        },
{
    match text {
        Some(text) => accepted(from_str_radix(text, RADIX)),
        None => None,
    }
}

/// The text of the string value that stands for the number.
pub fn to_value(number: &Decimal) -> (text: String)
    ensures
        text@ == decimal_text(*number),
{
    to_string(number)
}

} // verus!

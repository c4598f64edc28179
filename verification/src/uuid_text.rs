//! UUIDs as text: parsing and printing, both done by the `uuid` crate.
//!
//! Inside this crate a UUID is its 128-bit value, most significant byte
//! first. Nothing in this file is proved: each function states what the
//! `uuid` crate does.

use vstd::prelude::*;

verus! {

/// The error type of the `uuid` crate, carried through unopened.
#[verifier::external_type_specification]
#[verifier::external_body]
pub struct ExUuidError(uuid::Error);

/// What `Uuid::parse_str` makes of a text: the value of the UUID it reads,
/// or `None` where it rejects the text.
pub uninterp spec fn parsed_uuid(text: Seq<char>) -> Option<u128>;

/// The hexadecimal digit `position` of `value`, counted from the most
/// significant one, which is digit 0.
pub open spec fn hex_digit(value: u128, position: int) -> char {
    "0123456789abcdef"@[((value as int) / pow16(31 - position)) % 16]
}

/// Sixteen to the power `exponent`.
pub open spec fn pow16(exponent: int) -> int
    decreases exponent,
{
    if exponent <= 0 {
        1
    } else {
        16 * pow16(exponent - 1)
    }
}

/// The 36 characters of the hyphenated lower-case form: 32 hexadecimal
/// digits in groups of 8, 4, 4, 4 and 12, with a hyphen between groups.
pub open spec fn hyphenated(value: u128) -> Seq<char> {
    Seq::new(
        36,
        |i: int|
            if i == 8 || i == 13 || i == 18 || i == 23 {
                '-'
            } else if i < 8 {
                hex_digit(value, i)
            } else if i < 13 {
                hex_digit(value, i - 1)
            } else if i < 18 {
                hex_digit(value, i - 2)
            } else if i < 23 {
                hex_digit(value, i - 3)
            } else {
                hex_digit(value, i - 4)
            },
    )
}

/// Calls `uuid::Uuid::parse_str` and hands back the value of the UUID it
/// read. Claimed: the outcome is the one that [`parsed_uuid`] names for this
/// text. Nothing is claimed of the error.
#[verifier::external_body]
pub(crate) fn parse_uuid(text: &str) -> (parsed: Result<u128, uuid::Error>)
    ensures
        parsed is Ok <==> parsed_uuid(text@) is Some,
        parsed matches Ok(value) ==> parsed_uuid(text@) == Some(value),
{
    match uuid::Uuid::parse_str(text) {
        Ok(id) => Ok(id.as_u128()),
        Err(error) => Err(error),
    }
}

/// Calls the `Display` impl of `uuid::Error`. Nothing is claimed of the text.
#[verifier::external_body]
pub(crate) fn describe_uuid_error(error: &uuid::Error) -> (text: String) {
    error.to_string()
}

/// Calls the `Display` impl of `uuid::Uuid` on the UUID with this value.
/// Claimed: the text is the hyphenated lower-case form.
#[verifier::external_body]
pub(crate) fn print_uuid(value: u128) -> (text: String)
    ensures
        text@ == hyphenated(value),
{
    uuid::Uuid::from_u128(value).to_string()
}

} // verus!

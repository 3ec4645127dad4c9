//! Identifiers in their textual form.
use vstd::arithmetic::power::pow;
use vstd::prelude::*;

use crate::hex::hex_digit;

verus! {

/// Digit `k` of the thirty-two hexadecimal digits of an identifier, counted
/// from the left.
pub open spec fn uuid_digit(id: u128, k: int) -> char {
    hex_digit((id as int / pow(16, (31 - k) as nat)) % 16)
}

/// The hyphenated form of an identifier: its digits in groups of eight, four,
/// four, four and twelve.
pub open spec fn uuid_form(id: u128) -> Seq<char> {
    Seq::new(
        36,
        |i: int|
            if i < 8 {
                uuid_digit(id, i)
            } else if i == 8 || i == 13 || i == 18 || i == 23 {
                '-'
            } else if i < 13 {
                uuid_digit(id, i - 1)
            } else if i < 18 {
                uuid_digit(id, i - 2)
            } else if i < 23 {
                uuid_digit(id, i - 3)
            } else {
                uuid_digit(id, i - 4)
            },
    )
}

/// The identifier that a text denotes, or what is wrong with the text.
pub uninterp spec fn uuid_parsed(text: Seq<char>) -> Result<u128, Seq<char>>;

/// The identifier that a text denotes.
pub open spec fn uuid_value(text: Seq<char>) -> Option<u128> {
    match uuid_parsed(text) {
        Ok(id) => Some(id),
        Err(_) => None,
    }
}

/// `uuid::Uuid::to_string`: the hyphenated form in lower case, which reads back
/// as the identifier.
#[verifier::external_body]
pub(crate) fn id_text(id: u128) -> (s: String)
    ensures
        s@ == uuid_form(id),
        uuid_value(s@) == Some(id),
{
    uuid::Uuid::from_u128(id).to_string()
}

/// `uuid::Uuid::parse_str`: the identifier that a text denotes, in any of the
/// forms that the crate accepts, or the text of its error.
#[verifier::external_body]
pub(crate) fn check_id(text: &str) -> (r: Result<u128, String>)
    ensures
        match r {
            Ok(id) => uuid_parsed(text@) == Ok::<u128, Seq<char>>(id),
            Err(e) => uuid_parsed(text@) == Err::<u128, Seq<char>>(e@),
        },
{
    uuid::Uuid::parse_str(text).map(|u| u.as_u128()).map_err(|e| e.to_string())
}

/// The identifier that a text denotes, if it denotes one.
pub(crate) fn parse_id(text: &str) -> (r: Option<u128>)
    ensures
        r == uuid_value(text@),
{
    match check_id(text) {
        Ok(id) => Some(id),
        Err(_) => None,
    }
}

/// An identifier as text.
pub fn show_id(id: u128) -> (s: String)
    ensures
        s@ == uuid_form(id),
        uuid_value(s@) == Some(id),
{
    id_text(id)
}

/// The identifier that a text denotes.
pub fn read_id(text: &str) -> (r: Option<u128>)
    ensures
        r == uuid_value(text@),
{
    parse_id(text)
}

} // verus!

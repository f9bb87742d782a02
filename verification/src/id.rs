//! Identifiers: 128-bit values and their text.

use crate::error::Error;
use std::str::FromStr;
use uuid::Uuid;
use vstd::prelude::*;

verus! {

/// The lower-case hexadecimal digit for `n`, which is below sixteen.
pub open spec fn hex_digit(n: u128) -> char {
    if n < 10 {
        (48 + n) as u8 as char
    } else {
        (87 + n) as u8 as char
    }
}

/// The `k`-th of the 32 hexadecimal digits of `id`, the most significant being
/// the first.
pub open spec fn hex_digit_at(id: u128, k: int) -> char {
    hex_digit((id >> ((4 * (31 - k)) as u128)) & 0xf)
}

/// The number of hyphens before position `i` of the text of an identifier.
pub open spec fn hyphens_before(i: int) -> int {
    if i < 8 {
        0
    } else if i < 13 {
        1
    } else if i < 18 {
        2
    } else if i < 23 {
        3
    } else {
        4
    }
}

/// The text of an identifier: its 32 lower-case hexadecimal digits in groups
/// of 8, 4, 4, 4 and 12, with hyphens between the groups.
pub open spec fn hyphenated(id: u128) -> Seq<char> {
    Seq::new(
        36,
        |i: int|
            if i == 8 || i == 13 || i == 18 || i == 23 {
                '-'
            } else {
                hex_digit_at(id, i - hyphens_before(i))
            },
    )
}

/// The identifier that `uuid::Uuid::from_str` reads from a text, if it reads
/// one.  Besides the hyphenated form it takes several others.
pub uninterp spec fn uuid_of_text(text: Seq<char>) -> Option<u128>;

/// The text of `id` as `uuid::Uuid` displays it: `Uuid::from_u128` takes the
/// value in big-endian order and `to_string` writes the hyphenated
/// lower-case form.
#[verifier::external_body]
fn uuid_text(id: u128) -> (text: String)
    ensures
        text@ == hyphenated(id),
{
    Uuid::from_u128(id).to_string()
}

/// What `uuid::Uuid::from_str` makes of `text`: the identifier it reads, as
/// `Uuid::as_u128` gives it, or the description of its error.
#[verifier::external_body]
fn uuid_from_text(text: &str) -> (res: Result<u128, String>)
    ensures
        res is Ok <==> uuid_of_text(text@) is Some,
        res matches Ok(id) ==> uuid_of_text(text@) == Some(id),
{
    match Uuid::from_str(text) {
        Ok(id) => Ok(id.as_u128()),
        Err(e) => Err(e.to_string()),
    }
}

/// Reads an identifier from `text`, or tells why it cannot be read.
pub fn read_id(text: &str) -> (res: Result<u128, String>)
    ensures
        res is Ok <==> is_id_text(text@),
        res matches Ok(id) ==> uuid_of_text(text@) == Some(id),
{
    uuid_from_text(text)
}

/// The text of the identifier `id`.
pub fn to_text(id: u128) -> (text: String)
    ensures
        text@ == hyphenated(id),
{
    uuid_text(id)
}

/// Whether `text` can be read as an identifier: whether it is the text of an
/// identifier or one of the other forms that `uuid::Uuid::from_str` takes.
pub open spec fn is_id_text(text: Seq<char>) -> bool {
    uuid_of_text(text) is Some
}

/// The identifier that an `id` parameter of a request names.  Fails with
/// [`Error::InvalidParameter`] exactly if the text cannot be read as an
/// identifier.
pub fn extract_id(text: &str) -> (res: Result<u128, Error>)
    ensures
        res is Ok <==> is_id_text(text@),
        res matches Ok(id) ==> uuid_of_text(text@) == Some(id),
        res matches Err(e) ==> e == Error::InvalidParameter,
{
    match uuid_from_text(text) {
        Ok(id) => Ok(id),
        Err(_) => Err(Error::InvalidParameter),
    }
}

} // verus!

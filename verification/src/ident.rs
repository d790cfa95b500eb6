//! Identifiers and their textual form, read and written by the `uuid` crate.

use vstd::prelude::*;
use vstd::arithmetic::power::pow;
use crate::error::AppError;
use crate::model::Id;

verus! {

/// What `uuid::Uuid::parse_str` makes of a text: the 128 bits of the
/// identifier that it reads, or nothing where it reports an error.
pub uninterp spec fn uuid_parse(text: Seq<char>) -> Option<u128>;

/// The lower-case hexadecimal digit of a number below sixteen.
pub open spec fn hex_digit(nibble: int) -> char {
    seq!['0', '1', '2', '3', '4', '5', '6', '7', '8', '9', 'a', 'b', 'c', 'd', 'e', 'f'][nibble]
}

/// The canonical text of the identifier with these 128 bits: 36 characters,
/// a hyphen at positions 8, 13, 18 and 23, and elsewhere the 32 lower-case
/// hexadecimal digits of the value, the most significant first.
pub open spec fn canonical_text(value: u128) -> Seq<char> {
    Seq::new(
        36,
        |at: int|
            if at == 8 || at == 13 || at == 18 || at == 23 {
                '-'
            } else {
                let hyphens: int = if at > 23 {
                    4
                } else if at > 18 {
                    3
                } else if at > 13 {
                    2
                } else if at > 8 {
                    1
                } else {
                    0
                };
                hex_digit((value as int / pow(16, (31 - (at - hyphens)) as nat)) % 16)
            },
    )
}

/// Calls `uuid::Uuid::parse_str` and, on success, `Uuid::as_u128`. Trusted:
/// the answer is a function of the text alone, which `uuid_parse` names.
#[verifier::external_body]
fn parse_uuid(text: &str) -> (parsed: Option<u128>)
    ensures
        parsed == uuid_parse(text@),
{
    match uuid::Uuid::parse_str(text) {
        Ok(id) => Some(id.as_u128()),
        Err(_) => None,
    }
}

/// Calls `uuid::Uuid::from_u128` and displays the identifier through
/// `Uuid::hyphenated`. Trusted: the text is the lower-case hyphenated form
/// of the bits, and `parse_str` reads it back as the same identifier, since
/// it accepts every format that the crate writes.
#[verifier::external_body]
fn format_uuid(value: u128) -> (text: String)
    ensures
        text@ == canonical_text(value),
        uuid_parse(text@) == Some(value),
{
    uuid::Uuid::from_u128(value).hyphenated().to_string()
}

/// The identifier that a parse has read, if it has read one.
pub open spec fn parsed_id(parsed: Option<u128>) -> Option<Id> {
    match parsed {
        Some(value) => Some(Id { value }),
        None => None,
    }
}

/// The identifier that a parse has read, or the failure that a text which
/// is no identifier stands for.
pub open spec fn checked_id(parsed: Option<u128>) -> Result<Id, AppError> {
    match parsed {
        Some(value) => Ok(Id { value }),
        None => Err(AppError::Validation),
    }
}

impl Id {
    /// The identifier that the text writes, in any of the forms that the
    /// `uuid` crate reads; none if the text is not well-formed.
    pub fn parse(text: &str) -> (id: Option<Id>)
        ensures
            id == parsed_id(uuid_parse(text@)),
    {
        match parse_uuid(text) {
            Some(value) => Some(Id { value }),
            None => None,
        }
    }

    /// The canonical text of this identifier, which `parse` reads back.
    pub fn to_text(&self) -> (text: String)
        ensures
            text@ == canonical_text(self.value),
            parsed_id(uuid_parse(text@)) == Some(*self),
    {
        format_uuid(self.value)
    }
}

/// Turns the outcome of a parse into an identifier, or into `Validation`
/// where the text was no identifier.
pub fn id_from_parse(parsed: Option<u128>) -> (id: Result<Id, AppError>)
    ensures
        id == checked_id(parsed),
{
    match parsed {
        Some(value) => Ok(Id { value }),
        None => Err(AppError::Validation),
    }
}

/// Reads an identifier from its text. A text that is not well-formed is
/// rejected with `Validation`, never coerced.
pub fn decode_id(text: &str) -> (id: Result<Id, AppError>)
    ensures
        id == checked_id(uuid_parse(text@)),
{
    id_from_parse(parse_uuid(text))
}

} // verus!
